//! Decision logic of an idle-sleep daemon.
//!
//! The daemon polls three facts about the machine once per second: whether the
//! primary display is asleep, whether the session is locked, and whether some
//! process holds a power assertion that prevents idle sleep. When the display
//! has stayed dark for a grace period and nothing legitimate keeps the machine
//! awake, it forces the machine to sleep.
//!
//! This crate holds every decision of that loop as a function from plain values
//! to plain values. Asking the operating system, reading the clock, running the
//! sleep command and writing the log are left to the program around it.

pub mod driver;
pub mod probe;
pub mod runs;
pub mod timer;
pub mod trigger;
