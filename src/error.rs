use vstd::prelude::*;

verus! {

/// Status code with which the runtime rejects an unknown query parameter.
pub const INVALID_VALUE: i32 = -30;

/// Status code for a work-group size the runtime cannot accept.
pub const INVALID_WORK_GROUP_SIZE: i32 = -54;

/// Status code for a global work size the runtime cannot accept.
pub const INVALID_GLOBAL_WORK_SIZE: i32 = -63;

/// Everything that can go wrong, each carrying what the runtime said.
#[derive(Debug, PartialEq, Eq)]
pub enum Error {
    /// The runtime refused to bind a kernel argument.
    ArgumentBind(i32),
    /// A kernel dispatch was refused, by the runtime or for bad work sizes.
    Dispatch(i32),
    /// A status or capability query failed.
    RuntimeQuery(i32),
    /// A blocking wait on a completion token failed.
    RuntimeWait(i32),
    /// A buffer transfer was refused by the runtime.
    Transfer(i32),
    /// Any other call into the runtime failed with this status code.
    Runtime(i32),
    /// A program failed to build; the build log is attached.
    BuildProgramFailure(String),
    /// A kernel argument is bound to a buffer that was not handed to the dispatch.
    BufferNotSupplied(u64),
    /// A capability value has a length that does not fit its type.
    InfoSize { param: u32, len: usize },
    /// A capability string is not valid UTF-8.
    InvalidText(u32),
    /// The device reported a type this library does not know.
    UnknownDeviceType(u64),
}

} // verus!
