//! Translation of the kernel's status codes into a closed set of errors.

use vstd::prelude::*;
use vstd::std_specs::convert::FromSpecImpl;

verus! {

/// The call completed.
pub const KERN_SUCCESS: u32 = 0;

/// The task's IPC name space has no room for another right.
pub const KERN_NO_SPACE: u32 = 3;

/// The name denotes a right, but not an appropriate one.
pub const KERN_INVALID_RIGHT: u32 = 17;

/// The task already holds send or receive rights for the port under another name.
pub const KERN_RIGHT_EXISTS: u32 = 21;

/// What a status code of the kernel means.
#[derive(Debug, Clone, Copy, PartialEq, Eq, Structural)]
pub enum MachError {
    /// No error.
    Success,
    /// There was no room in the task's IPC name space for another right.
    NoSpace,
    /// The name denotes a right, but not an appropriate right.
    InvalidRight,
    /// The task already has send or receive rights for the port under another name.
    RightExists,
    /// Any other status, kept as the kernel gave it.
    Unknown(u32),
}

/// The meaning of an unsigned status code.
pub open spec fn translate(code: u32) -> MachError {
    if code == KERN_SUCCESS {
        MachError::Success
    } else if code == KERN_NO_SPACE {
        MachError::NoSpace
    } else if code == KERN_INVALID_RIGHT {
        MachError::InvalidRight
    } else if code == KERN_RIGHT_EXISTS {
        MachError::RightExists
    } else {
        MachError::Unknown(code)
    }
}

/// The unsigned number that has the same 32 bits as `status`.
pub open spec fn bit_pattern(status: i32) -> u32 {
    if status >= 0 {
        status as u32
    } else {
        (status + 0x1_0000_0000) as u32
    }
}

/// The result that a translated status stands for at the API boundary:
/// `Success` is no error, every other variant is reported as it is.
pub open spec fn outcome(e: MachError) -> Result<(), MachError> {
    if e == MachError::Success {
        Ok(())
    } else {
        Err(e)
    }
}

/// Whether a signed status, as a call on the kernel returns it, reports success.
pub open spec fn succeeded(status: i32) -> bool {
    status == 0
}

/// The meaning of a signed status: that of the unsigned code with the same bits.
pub open spec fn meaning(status: i32) -> MachError {
    translate(bit_pattern(status))
}

/// What a signed status amounts to for the caller of an operation: nothing
/// to report on success, else the error that the status stands for.
pub open spec fn checked(status: i32) -> Result<(), MachError> {
    if succeeded(status) {
        Ok(())
    } else {
        Err(meaning(status))
    }
}

impl From<u32> for MachError {
    fn from(e: u32) -> (r: MachError)
        ensures
            r == translate(e),
    {
        match e {
            KERN_SUCCESS => MachError::Success,
            KERN_NO_SPACE => MachError::NoSpace,
            KERN_INVALID_RIGHT => MachError::InvalidRight,
            KERN_RIGHT_EXISTS => MachError::RightExists,
            unknown => MachError::Unknown(unknown),
        }
    }
}

impl FromSpecImpl<u32> for MachError {
    open spec fn obeys_from_spec() -> bool {
        true
    }

    open spec fn from_spec(e: u32) -> MachError {
        translate(e)
    }
}

impl From<i32> for MachError {
    fn from(e: i32) -> (r: MachError)
        ensures
            r == translate(bit_pattern(e)),
    {
        let bits: u32 = e as u32;
        assert(bits == bit_pattern(e)) by (bit_vector)
            requires
                bits == e as u32,
        ;
        MachError::from(bits)
    }
}

impl FromSpecImpl<i32> for MachError {
    open spec fn obeys_from_spec() -> bool {
        true
    }

    open spec fn from_spec(e: i32) -> MachError {
        translate(bit_pattern(e))
    }
}

impl From<MachError> for Result<(), MachError> {
    fn from(e: MachError) -> (r: Result<(), MachError>)
        ensures
            r == outcome(e),
    {
        match e {
            MachError::Success => Ok(()),
            err => Err(err),
        }
    }
}

impl FromSpecImpl<MachError> for Result<(), MachError> {
    open spec fn obeys_from_spec() -> bool {
        true
    }

    open spec fn from_spec(e: MachError) -> Result<(), MachError> {
        outcome(e)
    }
}

/// Translates the status that a call on the kernel returned, and reports
/// anything but success as an error.
#[verifier::allow_in_spec]
pub fn check(status: i32) -> Result<(), MachError>
    returns
        checked(status),
{
    Result::from(MachError::from(status))
}

/// Translation loses nothing: two codes with the same meaning are the same
/// code, and a signed status means what the unsigned code with its bits means.
pub proof fn translation_is_faithful(a: u32, b: u32, status: i32, other: i32)
    ensures
        translate(a) == translate(b) ==> a == b,
        bit_pattern(status) == bit_pattern(other) ==> status == other,
        meaning(status) == meaning(other) ==> status == other,
        status >= 0 ==> bit_pattern(status) == status,
        succeeded(status) <==> meaning(status) == MachError::Success,
{
}

/// Success is never reported as an error, and every other meaning is an
/// error: the result of a status is `Ok` exactly on success, and an error
/// that is reported is never `Success`.
pub proof fn success_is_no_error(code: u32, status: i32)
    ensures
        outcome(translate(code)) is Ok <==> code == KERN_SUCCESS,
        outcome(translate(code)) != Err::<(), MachError>(MachError::Success),
        checked(status) is Ok <==> status == 0,
        checked(status) != Err::<(), MachError>(MachError::Success),
        checked(status) == outcome(meaning(status)),
{
}

} // verus!
