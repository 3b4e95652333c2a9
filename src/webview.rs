//! Types of the window that hosts a browser view.
use vstd::prelude::*;

verus! {

/// How a requested window size applies.
#[derive(Clone, Copy, Debug, PartialEq, Eq, Structural)]
pub enum SizeHint {
    /// The size itself.
    NONE,
    /// The smallest size the user can drag to.
    MIN,
    /// The largest size the user can drag to.
    MAX,
    /// A size the user cannot change.
    FIXED,
}

impl SizeHint {
    /// The number the host's interface uses for the hint.
    pub fn value(&self) -> (r: i32)
        ensures
            r == match *self {
                SizeHint::NONE => 0i32,
                SizeHint::MIN => 1i32,
                SizeHint::MAX => 2i32,
                SizeHint::FIXED => 3i32,
            },
    {
        match *self {
            SizeHint::NONE => 0,
            SizeHint::MIN => 1,
            SizeHint::MAX => 2,
            SizeHint::FIXED => 3,
        }
    }
}

impl Default for SizeHint {
    fn default() -> (r: Self)
        ensures
            r == SizeHint::NONE,
    {
        SizeHint::NONE
    }
}

} // verus!
