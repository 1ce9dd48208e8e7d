//! Interruptible LED chase animation: the pattern scheduler, the race between
//! a quantum timer and a button edge, and the mode state machine that drives
//! them, all as plain state transitions that the firmware around them executes.
pub mod chase;
pub mod chip_id;
pub mod leds;
pub mod modes;
pub mod race;
