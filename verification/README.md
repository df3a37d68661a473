# simpomo

A small pomodoro timer. The library holds the verified core:

- `src/timer.rs`: the timer as a state machine driven by `tick(secs)`, with its
  abstract model (`TimerModel`) and the exact contract of every operation.
- `src/laws.rs`: properties that span operations (ticking in one batch equals
  ticking in parts, `Finite(n)` runs exactly its sets, `Infinite` never stops,
  `Finite(0)` and `Finite(1)` agree, and more), proved over the model.
- `src/settings.rs`: the persisted settings and the bounds that `sanitized`
  enforces.
- `src/driver.rs`: how clock readings become whole seconds for the timer, with
  the fraction of a second carried to the next round.
- `src/layout.rs`: the window corner and size presets named by the settings.

`app/` is the desktop shell (Tauri): commands, events, tray, window placement
in floating-point logical pixels, and the settings file.
