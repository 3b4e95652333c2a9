//! Status codes and interface identities of the foreign binary interface.
use vstd::prelude::*;

verus! {

/// The status value that means success.
pub const S_OK: u32 = 0;

/// The status returned when an object does not implement a requested interface.
pub const E_NOINTERFACE: u32 = 0x8000_4002;

/// The status returned when a required output pointer is null.
pub const E_POINTER: u32 = 0x8000_4003;

/// The status returned for an unspecified failure.
pub const E_FAIL: u32 = 0x8000_4005;

/// The identity of the universal base interface that every object answers to.
pub const IUNKNOWN_IID: u128 = 0x0000_0000_0000_0000_C000_0000_0000_0046;

/// A status code of the foreign interface; the high bit marks a failure.
#[derive(Clone, Copy, Debug, PartialEq, Eq, Structural)]
pub struct ErrorCode {
    pub value: u32,
}

impl ErrorCode {
    /// Success or failure, as the foreign interface reads a status.
    pub open spec fn spec_is_ok(self) -> bool {
        self.value < 0x8000_0000
    }

    pub fn new(value: u32) -> (r: ErrorCode)
        ensures
            r.value == value,
    {
        ErrorCode { value }
    }

    /// True for a success status.
    pub fn is_ok(&self) -> (r: bool)
        ensures
            r == self.spec_is_ok(),
    {
        self.value < 0x8000_0000
    }

    /// True for a failure status.
    pub fn is_err(&self) -> (r: bool)
        ensures
            r == !self.spec_is_ok(),
    {
        self.value >= 0x8000_0000
    }

    /// The status as the signed value that crosses the binary interface.
    pub fn to_raw(&self) -> (r: i32)
        ensures
            r == #[verifier::truncate] (self.value as i32),
    {
        #[verifier::truncate]
        (self.value as i32)
    }
}

/// A 128-bit interface identity.
#[derive(Clone, Copy, Debug, PartialEq, Eq, Structural)]
pub struct Guid {
    pub value: u128,
}

impl Guid {
    pub fn from_u128(value: u128) -> (r: Guid)
        ensures
            r.value == value,
    {
        Guid { value }
    }

    /// The identity of the universal base interface.
    pub fn iunknown() -> (r: Guid)
        ensures
            r.value == IUNKNOWN_IID,
    {
        Guid { value: IUNKNOWN_IID }
    }
}

} // verus!
