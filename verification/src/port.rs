//! Port handles and the typed rights over them.

use vstd::prelude::*;

use crate::error::{check, checked, succeeded, MachError};
use crate::surface::{AllocateReply, KernelCall, Slot};
use crate::task::Task;

verus! {

/// Code of the send right.
pub const MACH_PORT_RIGHT_SEND: u32 = 0;

/// Code of the receive right.
pub const MACH_PORT_RIGHT_RECEIVE: u32 = 1;

/// Code of the send-once right.
pub const MACH_PORT_RIGHT_SEND_ONCE: u32 = 2;

/// Code of membership in a port set.
pub const MACH_PORT_RIGHT_PORT_SET: u32 = 3;

/// Code of a dead name.
pub const MACH_PORT_RIGHT_DEAD_NAME: u32 = 4;

/// A right that can be gained for a port.
#[derive(Debug, Clone, Copy, PartialEq, Eq, Structural)]
pub enum Right {
    Send,
    Receive,
    SendOnce,
    PortSet,
    DeadName,
}

impl Right {
    /// The number by which the kernel knows this right.
    pub open spec fn code_spec(self) -> u32 {
        match self {
            Right::Send => MACH_PORT_RIGHT_SEND,
            Right::Receive => MACH_PORT_RIGHT_RECEIVE,
            Right::SendOnce => MACH_PORT_RIGHT_SEND_ONCE,
            Right::PortSet => MACH_PORT_RIGHT_PORT_SET,
            Right::DeadName => MACH_PORT_RIGHT_DEAD_NAME,
        }
    }

    /// The number by which the kernel knows this right.
    #[verifier::when_used_as_spec(code_spec)]
    pub fn code(self) -> (c: u32)
        ensures
            c == self.code_spec(),
    {
        match self {
            Right::Send => MACH_PORT_RIGHT_SEND,
            Right::Receive => MACH_PORT_RIGHT_RECEIVE,
            Right::SendOnce => MACH_PORT_RIGHT_SEND_ONCE,
            Right::PortSet => MACH_PORT_RIGHT_PORT_SET,
            Right::DeadName => MACH_PORT_RIGHT_DEAD_NAME,
        }
    }
}

/// Code of moving a receive right.
pub const MACH_MSG_TYPE_MOVE_RECEIVE: u32 = 16;

/// Code of moving a send right.
pub const MACH_MSG_TYPE_MOVE_SEND: u32 = 17;

/// Code of moving a send-once right.
pub const MACH_MSG_TYPE_MOVE_SEND_ONCE: u32 = 18;

/// Code of copying a send right.
pub const MACH_MSG_TYPE_COPY_SEND: u32 = 19;

/// Code of making a send right from a receive right.
pub const MACH_MSG_TYPE_MAKE_SEND: u32 = 20;

/// Code of making a send-once right from a receive right.
pub const MACH_MSG_TYPE_MAKE_SEND_ONCE: u32 = 21;

/// Code of copying a receive right.
pub const MACH_MSG_TYPE_COPY_RECEIVE: u32 = 22;

/// Code of disposing of a receive right.
pub const MACH_MSG_TYPE_DISPOSE_RECEIVE: u32 = 24;

/// Code of disposing of a send right.
pub const MACH_MSG_TYPE_DISPOSE_SEND: u32 = 25;

/// Code of disposing of a send-once right.
pub const MACH_MSG_TYPE_DISPOSE_SEND_ONCE: u32 = 26;

/// A right that can be inserted into a port: which right is granted, and
/// whether it is moved, copied, made or disposed of.
#[derive(Debug, Clone, Copy, PartialEq, Eq, Structural)]
pub enum InsertableRight {
    MoveReceive,
    MoveSend,
    CopySend,
    MakeSend,
    MoveSendOnce,
    MakeSendOnce,
    CopyReceive,
    DisposeReceive,
    DisposeSend,
    DisposeSendOnce,
}

impl InsertableRight {
    /// The number by which the kernel knows this disposition.
    pub open spec fn code_spec(self) -> u32 {
        match self {
            InsertableRight::MoveReceive => MACH_MSG_TYPE_MOVE_RECEIVE,
            InsertableRight::MoveSend => MACH_MSG_TYPE_MOVE_SEND,
            InsertableRight::CopySend => MACH_MSG_TYPE_COPY_SEND,
            InsertableRight::MakeSend => MACH_MSG_TYPE_MAKE_SEND,
            InsertableRight::MoveSendOnce => MACH_MSG_TYPE_MOVE_SEND_ONCE,
            InsertableRight::MakeSendOnce => MACH_MSG_TYPE_MAKE_SEND_ONCE,
            InsertableRight::CopyReceive => MACH_MSG_TYPE_COPY_RECEIVE,
            InsertableRight::DisposeReceive => MACH_MSG_TYPE_DISPOSE_RECEIVE,
            InsertableRight::DisposeSend => MACH_MSG_TYPE_DISPOSE_SEND,
            InsertableRight::DisposeSendOnce => MACH_MSG_TYPE_DISPOSE_SEND_ONCE,
        }
    }

    /// The number by which the kernel knows this disposition.
    #[verifier::when_used_as_spec(code_spec)]
    pub fn code(self) -> (c: u32)
        ensures
            c == self.code_spec(),
    {
        match self {
            InsertableRight::MoveReceive => MACH_MSG_TYPE_MOVE_RECEIVE,
            InsertableRight::MoveSend => MACH_MSG_TYPE_MOVE_SEND,
            InsertableRight::CopySend => MACH_MSG_TYPE_COPY_SEND,
            InsertableRight::MakeSend => MACH_MSG_TYPE_MAKE_SEND,
            InsertableRight::MoveSendOnce => MACH_MSG_TYPE_MOVE_SEND_ONCE,
            InsertableRight::MakeSendOnce => MACH_MSG_TYPE_MAKE_SEND_ONCE,
            InsertableRight::CopyReceive => MACH_MSG_TYPE_COPY_RECEIVE,
            InsertableRight::DisposeReceive => MACH_MSG_TYPE_DISPOSE_RECEIVE,
            InsertableRight::DisposeSend => MACH_MSG_TYPE_DISPOSE_SEND,
            InsertableRight::DisposeSendOnce => MACH_MSG_TYPE_DISPOSE_SEND_ONCE,
        }
    }
}

/// What allocating in `space` yields for each answer of the kernel: the slot
/// of the name that the kernel assigned where it reports success, else the
/// error that its status stands for.
pub open spec fn allocation(space: u32, reply: AllocateReply) -> Result<Slot, MachError> {
    match checked(reply.status) {
        Ok(()) => Ok(Slot { space, name: reply.name }),
        Err(e) => Err(e),
    }
}

/// The call that gives `slot` back, or `None` where the slot is not owned:
/// a slot is given back only if both its name and its name space differ from
/// `task_self`, the name by which the calling task knows itself.
pub open spec fn release_of(slot: Slot, task_self: u32) -> Option<KernelCall> {
    if slot.name != task_self && slot.space != task_self {
        Some(KernelCall::Deallocate { space: slot.space, name: slot.name })
    } else {
        None
    }
}

/// A result with the slot of the value that it holds in place of the value.
pub open spec fn placed<T: View<V = Slot>>(r: Result<T, MachError>) -> Result<Slot, MachError> {
    match r {
        Ok(held) => Ok(held@),
        Err(e) => Err(e),
    }
}

/// A Mach port: a name in a task's IPC name space, owned by this value.
///
/// Nothing gives a name back when a `Port` goes out of scope: the owner calls
/// [`Port::release`] and makes the call that it returns.
#[derive(Debug)]
pub struct Port {
    pub(crate) name: u32,
    pub(crate) task: u32,
}

impl View for Port {
    type V = Slot;

    closed spec fn view(&self) -> Slot {
        Slot { space: self.task, name: self.name }
    }
}

impl Port {
    /// The port that owns `name` in the name space of `task`.
    pub(crate) closed spec fn at_spec(task: u32, name: u32) -> Port {
        Port { name, task }
    }

    /// The port that owns `name` in the name space of `task`.
    #[verifier::when_used_as_spec(at_spec)]
    pub(crate) fn at(task: u32, name: u32) -> (port: Port)
        ensures
            port == Port::at_spec(task, name),
            port@ == (Slot { space: task, name }),
    {
        Port { name, task }
    }

    /// The port made for a name in a name space is viewed as that slot.
    pub(crate) proof fn at_is_viewed_as_its_slot(task: u32, name: u32)
        ensures
            Port::at(task, name)@ == (Slot { space: task, name }),
    {
    }

    /// The slot that the port owns.
    #[verifier::allow_in_spec]
    pub fn slot(&self) -> Slot
        returns
            self@,
    {
        Slot { space: self.task, name: self.name }
    }

    /// The name of the port in its name space.
    #[verifier::allow_in_spec]
    pub fn name(&self) -> u32
        returns
            self@.name,
    {
        self.name
    }

    /// The identity of the task whose name space holds the port.
    #[verifier::allow_in_spec]
    pub fn task(&self) -> u32
        returns
            self@.space,
    {
        self.task
    }

    /// The call that asks the kernel for a new port name in the name space of
    /// `task`, holding `right`.
    #[verifier::allow_in_spec]
    pub fn allocate_call(task: &Task, right: Right) -> KernelCall
        returns
            (KernelCall::Allocate { space: task@.name, right: right.code() }),
    {
        KernelCall::Allocate { space: task.as_ref().name(), right: right.code() }
    }

    /// The result of [`Port::allocate`], for use in specifications.
    pub closed spec fn allocate_spec(task: &Task, reply: AllocateReply) -> Result<Port, MachError> {
        match checked(reply.status) {
            Ok(()) => Ok(Port::at(task@.name, reply.name)),
            Err(e) => Err(e),
        }
    }

    /// The port that the kernel allocated in the name space of `task`, given
    /// its answer to [`Port::allocate_call`]: the port owns the name that the
    /// kernel assigned if the status is success, and there is no port and the
    /// status's error otherwise.
    #[verifier::when_used_as_spec(allocate_spec)]
    pub fn allocate(task: &Task, reply: AllocateReply) -> (r: Result<Port, MachError>)
        ensures
            r == Port::allocate_spec(task, reply),
            placed(r) == allocation(task@.name, reply),
    {
        match check(reply.status) {
            Ok(()) => Ok(Port::at(task.as_ref().name(), reply.name)),
            Err(e) => Err(e),
        }
    }

    /// The call that grants a right on this port, under the name and in the
    /// name space of `name`, in the way `right_type` says.
    #[verifier::allow_in_spec]
    pub fn insert_right_call(&self, name: &Port, right_type: InsertableRight) -> KernelCall
        returns
            (KernelCall::InsertRight {
                space: name@.space,
                name: name@.name,
                source: self@.name,
                disposition: right_type.code(),
            }),
    {
        KernelCall::InsertRight {
            space: name.task,
            name: name.name,
            source: self.name,
            disposition: right_type.code(),
        }
    }

    /// What the kernel's answer to [`Port::insert_right_call`] means: nothing
    /// to report on success, the status's error otherwise. Neither port
    /// changes hands, whatever the answer.
    #[allow(unused_variables)]
    pub fn insert_right(
        &self,
        name: &Port,
        right_type: InsertableRight,
        status: i32,
    ) -> (r: Result<(), MachError>)
        ensures
            r == checked(status),
    {
        check(status)
    }

    /// Ends the life of the port. Returns the call that gives its name back
    /// to the kernel, or `None` for a port that is not owned: one whose name
    /// or name space is `task_self`.
    #[verifier::allow_in_spec]
    pub fn release(self, task_self: u32) -> Option<KernelCall>
        returns
            release_of(self@, task_self),
    {
        if self.name != task_self && self.task != task_self {
            Some(KernelCall::Deallocate { space: self.task, name: self.name })
        } else {
            None
        }
    }

    /// What the kernel's answer to the call of [`Port::release`] means. An
    /// error here is a fault that cannot be recovered from: the name was not
    /// the port's to give back.
    #[verifier::allow_in_spec]
    pub fn released(status: i32) -> Result<(), MachError>
        returns
            checked(status),
    {
        check(status)
    }
}

/// No two rights share a code, and no two dispositions do: the kernel can
/// tell from the number alone what is asked of it.
pub proof fn codes_are_distinct(a: Right, b: Right, c: InsertableRight, d: InsertableRight)
    ensures
        a.code() == b.code() ==> a == b,
        c.code() == d.code() ==> c == d,
        a.code() <= MACH_PORT_RIGHT_DEAD_NAME,
        MACH_MSG_TYPE_MOVE_RECEIVE <= c.code() <= MACH_MSG_TYPE_DISPOSE_SEND_ONCE,
{
}

/// A port that is allocated and dropped at once gives back what it was
/// given, whatever the kind of right: where the kernel reports success there
/// is a port, and for a slot that is owned its release is the call that
/// deallocates, in the name space that the allocation named, the name that
/// the kernel assigned. The kernel's success on that call is no fault.
pub proof fn allocate_then_release_gives_the_slot_back(
    task: Task,
    right: Right,
    reply: AllocateReply,
    task_self: u32,
)
    requires
        succeeded(reply.status),
        task@.name != task_self,
        reply.name != task_self,
    ensures
        Port::allocate_call(&task, right) matches KernelCall::Allocate { space, .. }
            && Port::allocate(&task, reply) matches Ok(port) && port.release(task_self) == Some(
            KernelCall::Deallocate { space, name: reply.name },
        ),
        Port::released(0) is Ok,
{
}

} // verus!
