//! Failures of the control interface.

use vstd::prelude::*;

verus! {

/// The error number that the allocator gives for a key path that names no
/// slot. A key path that is no terminated byte string names none either,
/// and is refused with the same number before the allocator sees it.
pub const ENOENT: i32 = 2;

/// Why a request failed.
#[derive(Clone, Copy, Debug, PartialEq, Eq, Structural)]
pub enum Error {
    /// The key path names no slot of the allocator. Carries the error
    /// number that the resolution gave.
    Resolution(i32),
    /// The allocator refused a read or write, most often because the length
    /// declared does not match the slot. Carries the error number.
    Access(i32),
    /// The bytes of a string slot are not valid text.
    Encoding,
}

impl Error {
    /// The error number that the failure carries, if it carries one.
    pub open spec fn code_spec(self) -> Option<i32> {
        match self {
            Error::Resolution(code) => Some(code),
            Error::Access(code) => Some(code),
            Error::Encoding => None,
        }
    }

    /// The error number that the failure carries, if it carries one.
    #[verifier::when_used_as_spec(code_spec)]
    pub fn code(self) -> (r: Option<i32>)
        ensures
            r == self.code_spec(),
    {
        match self {
            Error::Resolution(code) => Some(code),
            Error::Access(code) => Some(code),
            Error::Encoding => None,
        }
    }
}

/// What a status of the allocator means: zero is success, any other value
/// is an error number.
pub open spec fn status_result(ret: i32) -> Result<(), i32> {
    if ret == 0 {
        Ok(())
    } else {
        Err(ret)
    }
}

/// Reads a status of the allocator: zero is success, any other value
/// is the error number to hand on.
pub fn cvt(ret: i32) -> (r: Result<(), i32>)
    ensures
        r == status_result(ret),
{
    if ret == 0 {
        Ok(())
    } else {
        Err(ret)
    }
}

} // verus!
