//! A single-producer, single-consumer channel whose two halves share a
//! ring buffer and guard it with Peterson's mutual-exclusion protocol.

pub mod buffer;
pub mod channel;
pub mod error;
pub mod lifecycle;
pub mod peterson;

pub use buffer::{Buffer, BufferState};
pub use channel::{channel, Consumer, Producer};
pub use error::{RecvError, SendError};
pub use peterson::{AccessFlags, EntryCheck, Side};
