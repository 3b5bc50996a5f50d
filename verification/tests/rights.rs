use mach_rs::{
    AllocateReply, DeadName, KernelCall, MachError, Port, ReceiveRight, SendReceiveRight, SendRight,
    Task,
};

/// The name by which the calling task knows itself in these tests.
const TASK_SELF: u32 = 0x103;

/// The name by which some other task knows itself.
const OTHER_TASK: u32 = 0x2007;

/// The kernel's answer to an allocation that went well.
fn granted(name: u32) -> AllocateReply {
    AllocateReply { status: 0, name }
}

fn receive_in(space: u32, name: u32) -> ReceiveRight {
    ReceiveRight::new_in_task(&Task::current(space), granted(name)).unwrap()
}

fn both_in(space: u32, name: u32) -> SendReceiveRight {
    receive_in(space, name).insert_send_right(TASK_SELF, 0).unwrap()
}

#[test]
fn allocation_test() {
    let recv = ReceiveRight::new(TASK_SELF, granted(0x1203));
    assert!(recv.is_ok());
}

#[test]
fn insert_sright_test() {
    let recv = ReceiveRight::new(TASK_SELF, granted(0x1203)).unwrap();
    let send_recv = recv.insert_send_right(TASK_SELF, 0);
    assert_eq!(send_recv.is_ok(), true);
}

#[test]
fn dead_name_creation_test() {
    let dead = DeadName::new(TASK_SELF, granted(0x1303));
    assert_eq!(dead.is_ok(), true);
}

#[test]
fn receive_right_asks_for_a_receive_right() {
    assert_eq!(
        ReceiveRight::new_call(TASK_SELF),
        KernelCall::Allocate { space: TASK_SELF, right: 1 }
    );
    assert_eq!(
        ReceiveRight::new_in_task_call(&Task::current(OTHER_TASK)),
        KernelCall::Allocate { space: OTHER_TASK, right: 1 }
    );
}

#[test]
fn dead_name_asks_for_a_dead_name() {
    assert_eq!(
        DeadName::new_call(TASK_SELF),
        KernelCall::Allocate { space: TASK_SELF, right: 4 }
    );
    assert_eq!(
        DeadName::new_in_task_call(&Task::current(OTHER_TASK)),
        KernelCall::Allocate { space: OTHER_TASK, right: 4 }
    );
}

#[test]
fn receive_right_holds_the_assigned_name() {
    let recv = ReceiveRight::new(TASK_SELF, granted(0x1203)).unwrap();
    assert_eq!(recv.as_ref().name(), 0x1203);
    assert_eq!(recv.as_ref().task(), TASK_SELF);
    let elsewhere = receive_in(OTHER_TASK, 0x0b03);
    assert_eq!(elsewhere.as_ref().name(), 0x0b03);
    assert_eq!(elsewhere.as_ref().task(), OTHER_TASK);
}

#[test]
fn dead_name_holds_the_assigned_name() {
    let dead = DeadName::new(TASK_SELF, granted(0x1303)).unwrap();
    assert_eq!(dead.as_ref().name(), 0x1303);
    assert_eq!(dead.as_ref().task(), TASK_SELF);
    let elsewhere = DeadName::new_in_task(&Task::current(OTHER_TASK), granted(9)).unwrap();
    assert_eq!(elsewhere.as_ref().name(), 9);
    assert_eq!(elsewhere.as_ref().task(), OTHER_TASK);
}

#[test]
fn failed_allocation_gives_no_right() {
    let no_space = AllocateReply { status: 3, name: 0 };
    assert_eq!(ReceiveRight::new(TASK_SELF, no_space).unwrap_err(), MachError::NoSpace);
    assert_eq!(DeadName::new(TASK_SELF, no_space).unwrap_err(), MachError::NoSpace);
    let odd = AllocateReply { status: 6, name: 0x1203 };
    assert_eq!(
        ReceiveRight::new_in_task(&Task::current(OTHER_TASK), odd).unwrap_err(),
        MachError::Unknown(6)
    );
    assert_eq!(
        DeadName::new_in_task(&Task::current(OTHER_TASK), odd).unwrap_err(),
        MachError::Unknown(6)
    );
}

#[test]
fn upgrade_inserts_make_send_under_its_own_name() {
    let recv = receive_in(OTHER_TASK, 0x0b03);
    assert_eq!(
        recv.insert_send_right_call(),
        KernelCall::InsertRight {
            space: OTHER_TASK,
            name: 0x0b03,
            source: 0x0b03,
            disposition: 20,
        }
    );
}

#[test]
fn upgrade_keeps_the_port() {
    let recv = receive_in(OTHER_TASK, 0x0b03);
    let both = recv.insert_send_right(TASK_SELF, 0).unwrap();
    assert_eq!(both.as_ref().name(), 0x0b03);
    assert_eq!(both.as_ref().task(), OTHER_TASK);
}

#[test]
fn failed_upgrade_ends_the_receive_right() {
    let recv = receive_in(OTHER_TASK, 0x0b03);
    let (error, release) = recv.insert_send_right(TASK_SELF, 17).unwrap_err();
    assert_eq!(error, MachError::InvalidRight);
    assert_eq!(release, Some(KernelCall::Deallocate { space: OTHER_TASK, name: 0x0b03 }));
}

#[test]
fn failed_upgrade_in_the_own_name_space_releases_nothing() {
    let recv = receive_in(TASK_SELF, 0x1203);
    let (error, release) = recv.insert_send_right(TASK_SELF, 21).unwrap_err();
    assert_eq!(error, MachError::RightExists);
    assert_eq!(release, None);
}

#[test]
fn grant_into_another_port_names_that_port() {
    let recv = receive_in(TASK_SELF, 0x1203);
    let target = Port::allocate(&Task::current(OTHER_TASK), granted(0x0b03)).unwrap();
    assert_eq!(
        recv.insert_send_right_into_port_call(&target),
        KernelCall::InsertRight {
            space: OTHER_TASK,
            name: 0x0b03,
            source: 0x1203,
            disposition: 20,
        }
    );
}

#[test]
fn grant_into_the_port_of_a_wrapper() {
    let recv = receive_in(TASK_SELF, 0x1203);
    let dead = DeadName::new_in_task(&Task::current(OTHER_TASK), granted(0x0f03)).unwrap();
    assert_eq!(
        recv.insert_send_right_into_port_call(dead.as_ref()),
        KernelCall::InsertRight {
            space: OTHER_TASK,
            name: 0x0f03,
            source: 0x1203,
            disposition: 20,
        }
    );
    let task = Task::current(TASK_SELF);
    assert_eq!(
        recv.insert_send_right_into_port_call(task.as_ref()),
        KernelCall::InsertRight {
            space: TASK_SELF,
            name: TASK_SELF,
            source: 0x1203,
            disposition: 20,
        }
    );
}

#[test]
fn grant_can_be_repeated() {
    let recv = receive_in(TASK_SELF, 0x1203);
    let first = Port::allocate(&Task::current(OTHER_TASK), granted(0x0b03)).unwrap();
    let second = Port::allocate(&Task::current(OTHER_TASK), granted(0x0f03)).unwrap();
    assert_eq!(recv.insert_send_right_into_port(&first, 0), Ok(()));
    assert_eq!(recv.insert_send_right_into_port(&second, 0), Ok(()));
    assert_eq!(recv.insert_send_right_into_port(&first, 21), Err(MachError::RightExists));
    assert_eq!(recv.insert_send_right_into_port(&first, 17), Err(MachError::InvalidRight));
    assert_eq!(recv.insert_send_right_into_port(&first, 5), Err(MachError::Unknown(5)));
    assert_eq!(recv.as_ref().name(), 0x1203);
    assert_eq!(
        recv.insert_send_right_into_port_call(&second),
        KernelCall::InsertRight {
            space: OTHER_TASK,
            name: 0x0f03,
            source: 0x1203,
            disposition: 20,
        }
    );
}

#[test]
fn narrowing_to_send_keeps_the_port() {
    let send = SendRight::from(both_in(OTHER_TASK, 0x0b03));
    assert_eq!(send.as_ref().name(), 0x0b03);
    assert_eq!(send.as_ref().task(), OTHER_TASK);
}

#[test]
fn narrowing_to_receive_keeps_the_port() {
    let recv = ReceiveRight::from(both_in(OTHER_TASK, 0x0b03));
    assert_eq!(recv.as_ref().name(), 0x0b03);
    assert_eq!(recv.as_ref().task(), OTHER_TASK);
}

#[test]
fn narrowing_through_into() {
    let send: SendRight = both_in(TASK_SELF, 0x1203).into();
    assert_eq!(send.as_ref().name(), 0x1203);
    let recv: ReceiveRight = both_in(TASK_SELF, 0x1207).into();
    assert_eq!(recv.as_ref().name(), 0x1207);
}

#[test]
fn narrowed_receive_right_can_upgrade_again() {
    let recv = ReceiveRight::from(both_in(OTHER_TASK, 0x0b03));
    let both = recv.insert_send_right(TASK_SELF, 0).unwrap();
    assert_eq!(both.as_ref().name(), 0x0b03);
}

#[test]
fn every_wrapper_releases_its_own_slot() {
    let gone = Some(KernelCall::Deallocate { space: OTHER_TASK, name: 0x0b03 });
    assert_eq!(receive_in(OTHER_TASK, 0x0b03).release(TASK_SELF), gone);
    assert_eq!(both_in(OTHER_TASK, 0x0b03).release(TASK_SELF), gone);
    assert_eq!(SendRight::from(both_in(OTHER_TASK, 0x0b03)).release(TASK_SELF), gone);
    assert_eq!(ReceiveRight::from(both_in(OTHER_TASK, 0x0b03)).release(TASK_SELF), gone);
    let dead = DeadName::new_in_task(&Task::current(OTHER_TASK), granted(0x0b03)).unwrap();
    assert_eq!(dead.release(TASK_SELF), gone);
}

#[test]
fn wrappers_in_the_own_name_space_release_nothing() {
    assert_eq!(receive_in(TASK_SELF, 0x1203).release(TASK_SELF), None);
    assert_eq!(both_in(TASK_SELF, 0x1203).release(TASK_SELF), None);
    assert_eq!(SendRight::from(both_in(TASK_SELF, 0x1203)).release(TASK_SELF), None);
    let dead = DeadName::new(TASK_SELF, granted(0x1303)).unwrap();
    assert_eq!(dead.release(TASK_SELF), None);
}

#[test]
fn as_mut_reaches_the_port_that_is_held() {
    let mut recv = receive_in(OTHER_TASK, 0x0b03);
    assert_eq!(recv.as_mut().name(), 0x0b03);
    let mut both = both_in(OTHER_TASK, 0x0b07);
    assert_eq!(both.as_mut().name(), 0x0b07);
    let mut send = SendRight::from(both_in(OTHER_TASK, 0x0b0b));
    assert_eq!(send.as_mut().name(), 0x0b0b);
    let mut dead = DeadName::new(TASK_SELF, granted(0x1303)).unwrap();
    assert_eq!(dead.as_mut().name(), 0x1303);
    let mut task = Task::current(TASK_SELF);
    assert_eq!(task.as_mut().name(), TASK_SELF);
}

#[test]
fn as_mut_lets_the_port_be_replaced() {
    let mut recv = receive_in(OTHER_TASK, 0x0b03);
    let other = Port::allocate(&Task::current(OTHER_TASK), granted(0x0f03)).unwrap();
    let old = std::mem::replace(recv.as_mut(), other);
    assert_eq!(old.name(), 0x0b03);
    assert_eq!(recv.as_ref().name(), 0x0f03);
    assert_eq!(
        recv.release(TASK_SELF),
        Some(KernelCall::Deallocate { space: OTHER_TASK, name: 0x0f03 })
    );
    assert_eq!(
        old.release(TASK_SELF),
        Some(KernelCall::Deallocate { space: OTHER_TASK, name: 0x0b03 })
    );
}

#[test]
fn current_task_is_its_own_port() {
    let task = Task::current(TASK_SELF);
    assert_eq!(task.as_ref().name(), TASK_SELF);
    assert_eq!(task.as_ref().task(), TASK_SELF);
}

#[test]
fn current_task_is_never_released() {
    assert_eq!(Task::current(TASK_SELF).release(TASK_SELF), None);
    for _ in 0..3 {
        let outer = Task::current(TASK_SELF);
        {
            let inner = Task::current(TASK_SELF);
            assert_eq!(inner.release(TASK_SELF), None);
        }
        assert_eq!(outer.release(TASK_SELF), None);
    }
    assert_eq!(Task::current(0).release(0), None);
    assert_eq!(Task::current(u32::MAX).release(u32::MAX), None);
}
