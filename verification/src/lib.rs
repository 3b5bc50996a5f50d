//! Typed ownership of Mach port rights, written against the kernel's IPC
//! surface as plain values.
//!
//! The kernel hands out names for ports inside a task's IPC name space. This
//! crate decides which call is made on the kernel for each operation on a
//! right, what the kernel's answer means, and when a name has to be given
//! back. It makes no system call itself. Every operation that needs the
//! kernel comes as a pair of functions: one, whose name ends in `_call`, says
//! which [`KernelCall`] to make, and one takes the kernel's answer to that
//! call and yields the next value. The caller carries the call to the kernel
//! and brings the answer back:
//!
//! ```text
//! let call = ReceiveRight::new_call(task_self);
//! let reply = /* make `call`, keep the status and the name */;
//! let receive = ReceiveRight::new(task_self, reply)?;
//! ```
//!
//! A right owns its slot in the name space until its life is ended by
//! `release`, which consumes the right and returns the call that gives the
//! slot back. Nothing is released behind the caller's back, so a right that
//! is merely dropped keeps its slot taken.
//!
//! Throughout, `task_self` is the name by which the kernel lets the calling
//! task know itself. A slot whose name or name space is `task_self` is not
//! owned and is never given back.

pub mod error;
pub mod port;
pub mod rights;
pub mod surface;
pub mod task;

pub use error::MachError;
pub use port::{InsertableRight, Port, Right};
pub use rights::{DeadName, ReceiveRight, SendReceiveRight, SendRight};
pub use surface::{AllocateReply, KernelCall, Slot};
pub use task::Task;
