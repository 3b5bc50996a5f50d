//! The identity of the calling task.

use vstd::prelude::*;

use crate::port::{release_of, Port};
use crate::surface::{KernelCall, Slot};

verus! {

/// A task, known by its own port. Only the calling task can be named.
///
/// The port of the calling task is not a slot that anyone owns: it is never
/// given back, see [`release_of`].
#[derive(Debug)]
pub struct Task(pub(crate) Port);

impl View for Task {
    type V = Slot;

    closed spec fn view(&self) -> Slot {
        self.0@
    }
}

impl Task {
    /// The result of [`Task::current`], for use in specifications.
    pub closed spec fn current_spec(task_self: u32) -> Task {
        Task(Port::at(task_self, task_self))
    }

    /// The calling task, where `task_self` is the name by which the kernel
    /// lets a task know itself. Both the name and the name space of its port
    /// are `task_self`.
    #[verifier::when_used_as_spec(current_spec)]
    pub fn current(task_self: u32) -> (task: Task)
        ensures
            task == Task::current_spec(task_self),
            task@ == (Slot { space: task_self, name: task_self }),
    {
        Task(Port::at(task_self, task_self))
    }

    /// Ends the life of the value. Returns the call that gives the task's
    /// port back, which for the calling task is none.
    #[verifier::allow_in_spec]
    pub fn release(self, task_self: u32) -> Option<KernelCall>
        returns
            release_of(self@, task_self),
    {
        self.0.release(task_self)
    }
}

impl AsRef<Port> for Task {
    fn as_ref(&self) -> (port: &Port)
        ensures
            port@ == self@,
    {
        &self.0
    }
}

impl AsMut<Port> for Task {
    fn as_mut(&mut self) -> (port: &mut Port)
        ensures
            port@ == old(self)@,
            final(self)@ == final(port)@,
    {
        &mut self.0
    }
}

/// The calling task's own port is never given back: a value made by
/// [`Task::current`] yields no call when its life ends, however often such a
/// value is made and dropped.
pub proof fn current_task_is_never_released(task_self: u32)
    ensures
        Task::current(task_self).release(task_self) is None,
{
    Port::at_is_viewed_as_its_slot(task_self, task_self);
}

} // verus!
