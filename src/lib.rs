//! Debounced button input turned into toggle events for an LED actuator.
//!
//! The library holds the decisions of each cooperative task as step
//! functions: the caller performs the requested action (read a pin, wait
//! for an edge, sleep, send) and hands the outcome back as an event.
pub mod actuator;
pub mod channel;
pub mod debouncer;
pub mod level;
pub mod poller;
pub mod trace;
