//! The rights that a task can hold on a port, each as a type of its own.
//!
//! Every wrapper owns one [`Port`] and offers only what its right allows.
//! Turning one wrapper into another moves the port along: no call is made on
//! the kernel, and the slot stays the same.

use vstd::prelude::*;
use vstd::std_specs::convert::{FromSpec, FromSpecImpl};

use crate::error::{checked, meaning, succeeded, MachError};
use crate::port::{allocation, placed, release_of, InsertableRight, Port, Right};
use crate::surface::{AllocateReply, KernelCall, Slot};
use crate::task::Task;

verus! {

/// A port for which the task owns both a send right and a receive right.
#[derive(Debug)]
pub struct SendReceiveRight(pub(crate) Port);

impl View for SendReceiveRight {
    type V = Slot;

    closed spec fn view(&self) -> Slot {
        self.0@
    }
}

impl SendReceiveRight {
    /// Ends the life of the right. Returns the call that gives its slot back,
    /// or `None` where the slot is not owned.
    #[verifier::allow_in_spec]
    pub fn release(self, task_self: u32) -> Option<KernelCall>
        returns
            release_of(self@, task_self),
    {
        self.0.release(task_self)
    }
}

impl AsRef<Port> for SendReceiveRight {
    fn as_ref(&self) -> (port: &Port)
        ensures
            port@ == self@,
    {
        &self.0
    }
}

impl AsMut<Port> for SendReceiveRight {
    fn as_mut(&mut self) -> (port: &mut Port)
        ensures
            port@ == old(self)@,
            final(self)@ == final(port)@,
    {
        &mut self.0
    }
}

/// A port for which the task owns a send right.
#[derive(Debug)]
pub struct SendRight(pub(crate) Port);

impl View for SendRight {
    type V = Slot;

    closed spec fn view(&self) -> Slot {
        self.0@
    }
}

impl SendRight {
    /// Ends the life of the right. Returns the call that gives its slot back,
    /// or `None` where the slot is not owned.
    #[verifier::allow_in_spec]
    pub fn release(self, task_self: u32) -> Option<KernelCall>
        returns
            release_of(self@, task_self),
    {
        self.0.release(task_self)
    }
}

impl AsRef<Port> for SendRight {
    fn as_ref(&self) -> (port: &Port)
        ensures
            port@ == self@,
    {
        &self.0
    }
}

impl AsMut<Port> for SendRight {
    fn as_mut(&mut self) -> (port: &mut Port)
        ensures
            port@ == old(self)@,
            final(self)@ == final(port)@,
    {
        &mut self.0
    }
}

impl From<SendReceiveRight> for SendRight {
    /// Keeps the send right and forgets the receive right. The port itself
    /// still carries both.
    fn from(both: SendReceiveRight) -> (send: SendRight)
        ensures
            send@ == both@,
    {
        SendRight(both.0)
    }
}

impl FromSpecImpl<SendReceiveRight> for SendRight {
    open spec fn obeys_from_spec() -> bool {
        true
    }

    closed spec fn from_spec(both: SendReceiveRight) -> SendRight {
        SendRight(both.0)
    }
}

/// A port for which the task owns a receive right.
#[derive(Debug)]
pub struct ReceiveRight(pub(crate) Port);

impl View for ReceiveRight {
    type V = Slot;

    closed spec fn view(&self) -> Slot {
        self.0@
    }
}

impl ReceiveRight {
    /// The call that allocates a port with a receive right in the name space
    /// of `task`.
    #[verifier::allow_in_spec]
    pub fn new_in_task_call(task: &Task) -> KernelCall
        returns
            (KernelCall::Allocate { space: task@.name, right: Right::Receive.code() }),
    {
        Port::allocate_call(task, Right::Receive)
    }

    /// The receive right that the kernel allocated in the name space of
    /// `task`, given its answer to [`ReceiveRight::new_in_task_call`].
    pub fn new_in_task(task: &Task, reply: AllocateReply) -> (r: Result<ReceiveRight, MachError>)
        ensures
            placed(r) == allocation(task@.name, reply),
    {
        match Port::allocate(task, reply) {
            Ok(port) => Ok(ReceiveRight(port)),
            Err(e) => Err(e),
        }
    }

    /// The call that allocates a port with a receive right in the name space
    /// of the calling task, which knows itself as `task_self`.
    #[verifier::allow_in_spec]
    pub fn new_call(task_self: u32) -> KernelCall
        returns
            (KernelCall::Allocate { space: task_self, right: Right::Receive.code() }),
    {
        ReceiveRight::new_in_task_call(&Task::current(task_self))
    }

    /// The receive right that the kernel allocated in the name space of the
    /// calling task, given its answer to [`ReceiveRight::new_call`].
    pub fn new(task_self: u32, reply: AllocateReply) -> (r: Result<ReceiveRight, MachError>)
        ensures
            placed(r) == allocation(task_self, reply),
    {
        ReceiveRight::new_in_task(&Task::current(task_self), reply)
    }

    /// The call that makes a send right for this port, under its own name in
    /// its own name space.
    #[verifier::allow_in_spec]
    pub fn insert_send_right_call(&self) -> KernelCall
        returns
            (KernelCall::InsertRight {
                space: self@.space,
                name: self@.name,
                source: self@.name,
                disposition: InsertableRight::MakeSend.code(),
            }),
    {
        self.0.insert_right_call(&self.0, InsertableRight::MakeSend)
    }

    /// The result of [`ReceiveRight::insert_send_right`], for use in
    /// specifications.
    pub closed spec fn insert_send_right_spec(self, task_self: u32, status: i32) -> Result<
        SendReceiveRight,
        (MachError, Option<KernelCall>),
    > {
        match checked(status) {
            Ok(()) => Ok(SendReceiveRight(self.0)),
            Err(error) => Err((error, release_of(self@, task_self))),
        }
    }

    /// Turns the receive right into a send-receive right, given the kernel's
    /// answer to [`ReceiveRight::insert_send_right_call`].
    ///
    /// On success the result holds the same port. On any other status the
    /// receive right ends here: the result is the status's error, together
    /// with the call that gives the slot back (`None` where the slot is not
    /// owned), which is then the caller's to make.
    #[verifier::when_used_as_spec(insert_send_right_spec)]
    pub fn insert_send_right(self, task_self: u32, status: i32) -> (r: Result<
        SendReceiveRight,
        (MachError, Option<KernelCall>),
    >)
        ensures
            r == self.insert_send_right_spec(task_self, status),
            match r {
                Ok(both) => succeeded(status) && both@ == self@,
                Err((error, release)) => !succeeded(status) && error == meaning(status)
                    && release == release_of(self@, task_self),
            },
    {
        match self.0.insert_right(&self.0, InsertableRight::MakeSend, status) {
            Ok(()) => Ok(SendReceiveRight(self.0)),
            Err(error) => Err((error, self.0.release(task_self))),
        }
    }

    /// The call that makes a send right for this port under the name and in
    /// the name space of `port`.
    #[verifier::allow_in_spec]
    pub fn insert_send_right_into_port_call(&self, port: &Port) -> KernelCall
        returns
            (KernelCall::InsertRight {
                space: port@.space,
                name: port@.name,
                source: self@.name,
                disposition: InsertableRight::MakeSend.code(),
            }),
    {
        self.0.insert_right_call(port, InsertableRight::MakeSend)
    }

    /// What the kernel's answer to
    /// [`ReceiveRight::insert_send_right_into_port_call`] means. The receive
    /// right stays as it is whatever the answer, and can grant again.
    #[allow(unused_variables)]
    pub fn insert_send_right_into_port(&self, port: &Port, status: i32) -> (r: Result<
        (),
        MachError,
    >)
        ensures
            r == checked(status),
    {
        self.0.insert_right(port, InsertableRight::MakeSend, status)
    }

    /// Ends the life of the right. Returns the call that gives its slot back,
    /// or `None` where the slot is not owned.
    #[verifier::allow_in_spec]
    pub fn release(self, task_self: u32) -> Option<KernelCall>
        returns
            release_of(self@, task_self),
    {
        self.0.release(task_self)
    }
}

impl AsRef<Port> for ReceiveRight {
    fn as_ref(&self) -> (port: &Port)
        ensures
            port@ == self@,
    {
        &self.0
    }
}

impl AsMut<Port> for ReceiveRight {
    fn as_mut(&mut self) -> (port: &mut Port)
        ensures
            port@ == old(self)@,
            final(self)@ == final(port)@,
    {
        &mut self.0
    }
}

impl From<SendReceiveRight> for ReceiveRight {
    /// Keeps the receive right and forgets the send right. The port itself
    /// still carries both.
    fn from(both: SendReceiveRight) -> (receive: ReceiveRight)
        ensures
            receive@ == both@,
    {
        ReceiveRight(both.0)
    }
}

impl FromSpecImpl<SendReceiveRight> for ReceiveRight {
    open spec fn obeys_from_spec() -> bool {
        true
    }

    closed spec fn from_spec(both: SendReceiveRight) -> ReceiveRight {
        ReceiveRight(both.0)
    }
}

/// A name that denotes a right which has become invalid.
#[derive(Debug)]
pub struct DeadName(pub(crate) Port);

impl View for DeadName {
    type V = Slot;

    closed spec fn view(&self) -> Slot {
        self.0@
    }
}

impl DeadName {
    /// The call that allocates a dead name in the name space of `task`.
    #[verifier::allow_in_spec]
    pub fn new_in_task_call(task: &Task) -> KernelCall
        returns
            (KernelCall::Allocate { space: task@.name, right: Right::DeadName.code() }),
    {
        Port::allocate_call(task, Right::DeadName)
    }

    /// The dead name that the kernel allocated in the name space of `task`,
    /// given its answer to [`DeadName::new_in_task_call`].
    pub fn new_in_task(task: &Task, reply: AllocateReply) -> (r: Result<DeadName, MachError>)
        ensures
            placed(r) == allocation(task@.name, reply),
    {
        match Port::allocate(task, reply) {
            Ok(port) => Ok(DeadName(port)),
            Err(e) => Err(e),
        }
    }

    /// The call that allocates a dead name in the name space of the calling
    /// task, which knows itself as `task_self`.
    #[verifier::allow_in_spec]
    pub fn new_call(task_self: u32) -> KernelCall
        returns
            (KernelCall::Allocate { space: task_self, right: Right::DeadName.code() }),
    {
        DeadName::new_in_task_call(&Task::current(task_self))
    }

    /// The dead name that the kernel allocated in the name space of the
    /// calling task, given its answer to [`DeadName::new_call`].
    pub fn new(task_self: u32, reply: AllocateReply) -> (r: Result<DeadName, MachError>)
        ensures
            placed(r) == allocation(task_self, reply),
    {
        DeadName::new_in_task(&Task::current(task_self), reply)
    }

    /// Ends the life of the name. Returns the call that gives its slot back,
    /// or `None` where the slot is not owned.
    #[verifier::allow_in_spec]
    pub fn release(self, task_self: u32) -> Option<KernelCall>
        returns
            release_of(self@, task_self),
    {
        self.0.release(task_self)
    }
}

impl AsRef<Port> for DeadName {
    fn as_ref(&self) -> (port: &Port)
        ensures
            port@ == self@,
    {
        &self.0
    }
}

impl AsMut<Port> for DeadName {
    fn as_mut(&mut self) -> (port: &mut Port)
        ensures
            port@ == old(self)@,
            final(self)@ == final(port)@,
    {
        &mut self.0
    }
}

/// Narrowing a send-receive right to a send right or to a receive right
/// moves the duty to release along and changes nothing in it: for a slot that
/// is owned, the narrowed right gives back exactly what the send-receive
/// right would have given back, the one call that deallocates the slot.
pub proof fn narrowing_keeps_the_release(both: SendReceiveRight, task_self: u32)
    requires
        both@.name != task_self,
        both@.space != task_self,
    ensures
        both.release(task_self) == Some(
            KernelCall::Deallocate { space: both@.space, name: both@.name },
        ),
        <SendRight as FromSpec<SendReceiveRight>>::from_spec(both).release(task_self)
            == both.release(task_self),
        <ReceiveRight as FromSpec<SendReceiveRight>>::from_spec(both).release(task_self)
            == both.release(task_self),
{
}

/// Upgrading a receive right and then narrowing the result, either way,
/// leaves the port where it was: every wrapper on the way holds the slot that
/// the receive right held, and narrowing back to a receive right gives the
/// right that was upgraded.
pub proof fn upgrade_then_narrow_keeps_the_slot(receive: ReceiveRight, task_self: u32, status: i32)
    requires
        succeeded(status),
    ensures
        receive.insert_send_right(task_self, status) matches Ok(both) && {
            &&& both@ == receive@
            &&& <SendRight as FromSpec<SendReceiveRight>>::from_spec(both)@ == receive@
            &&& <ReceiveRight as FromSpec<SendReceiveRight>>::from_spec(both) == receive
        },
{
}

/// An upgrade that the kernel refuses ends the receive right: what is
/// handed back for release is what the receive right itself would have given
/// back, no more and no less.
pub proof fn refused_upgrade_releases_the_receive_right(
    receive: ReceiveRight,
    task_self: u32,
    status: i32,
)
    requires
        !succeeded(status),
    ensures
        receive.insert_send_right(task_self, status) matches Err((error, release)) && {
            &&& error == meaning(status)
            &&& error != MachError::Success
            &&& release == receive.release(task_self)
        },
{
}

} // verus!
