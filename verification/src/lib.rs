//! Protocol layer for the Keithley 2230 three-channel bench power supply.
//!
//! The crate holds the wire vocabulary, the command formatter, the response
//! parser and the sequencer of the supply's operations. It performs no I/O:
//! the sequencer says which command to write or when to read, and is told
//! what the transport reported.

pub mod vocab;
pub mod error;
pub mod command;
pub mod response;
pub mod measure;
pub mod driver;
pub mod device;

pub use crate::command::Command;
pub use crate::driver::{Action, Event, Keithley2230, Pending, Reply, Task, MANUFACTURER, MODEL};
pub use crate::error::Error;
pub use crate::measure::{ChMeas, Meas};
pub use crate::vocab::{Channel, State};
