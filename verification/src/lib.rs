//! A small pomodoro timer: the timer state machine, the rules on its
//! settings, and the decisions of the loop that drives it from a clock.
pub mod driver;
pub mod layout;
pub mod laws;
pub mod settings;
pub mod timer;
