//! Automatic dependency tracking for operations submitted to compute-device
//! command queues.
//!
//! Each buffer keeps a record of the last operation that wrote it and of the
//! reads issued since. Transfers and kernel dispatches derive their wait-sets
//! from those records, and fold the completion token of each submission back
//! into them. Talking to the runtime itself (submitting, waiting, querying) is
//! left to the caller: the library says what to submit and records what came
//! back.

pub mod command_queue;
pub mod device;
pub mod error;
pub mod event;
pub mod info;
pub mod kernel;
pub mod mem;
pub mod platform;

pub use command_queue::{CommandQueue, Direction, Dispatch, ReadLock, Transfer, WriteLock};
pub use device::{Device, DeviceType};
pub use error::Error;
pub use event::{Event, EventStatus, WaitState};
pub use info::{InfoEntry, InfoTable};
pub use kernel::{Arg, Kernel, KernelView};
pub use mem::{Mem, SyncView};
pub use platform::Platform;
