//! Command pipeline of a motorised desk lift.
//!
//! A command is one signed byte: its sign gives the direction of travel and
//! its magnitude, in units of 10 ms, the duration. Received bytes wait in a
//! bounded ring buffer and are executed strictly in arrival order, one motion
//! at a time.

pub mod actuator;
pub mod command;
pub mod dispatch;
pub mod index;
pub mod ring;
pub mod ringbuf;

pub use actuator::{status_byte, Action, Actuator, Fault, Stage};
pub use command::{Command, Direction};
pub use dispatch::{DispatchError, Dispatcher};
pub use index::Index;
pub use ringbuf::{RingBuf, RingBufError};
