//! The kernel's IPC surface as plain values: the calls that can be made on it
//! and what it answers.

use vstd::prelude::*;

verus! {

/// A place in a task's IPC name space: the name space and a name in it.
///
/// A [`Port`](crate::port::Port) and every right over it are viewed as the
/// slot that they own.
#[derive(Debug, Clone, Copy, PartialEq, Eq, Structural)]
pub struct Slot {
    /// The identity of the task whose name space holds the name.
    pub space: u32,
    /// The name, unique only within `space`.
    pub name: u32,
}

/// One call on the kernel's IPC surface, with the values handed to it.
#[derive(Debug, Clone, Copy, PartialEq, Eq, Structural)]
pub enum KernelCall {
    /// Create a new port name in `space` that holds the right with code `right`.
    Allocate { space: u32, right: u32 },
    /// Grant a right on the port that the caller knows as `source`, under
    /// `name` in `space`, in the way that the code `disposition` says.
    InsertRight { space: u32, name: u32, source: u32, disposition: u32 },
    /// Give `name` in `space` back.
    Deallocate { space: u32, name: u32 },
}

/// The kernel's answer to [`KernelCall::Allocate`].
#[derive(Debug, Clone, Copy, PartialEq, Eq, Structural)]
pub struct AllocateReply {
    /// The status of the call.
    pub status: i32,
    /// The name that the kernel assigned; it means nothing unless the status
    /// is success.
    pub name: u32,
}

} // verus!
