//! The Win32 "truthy" type.

use vstd::prelude::*;

verus! {

/// A native boolean: zero is false, every non-zero value is true.
///
/// The platform reports success through this type; only whether the value is
/// zero carries meaning, so the canonical `true` produced here is `1`.
#[derive(Debug, Clone, Copy, PartialEq, Eq, Structural)]
pub struct BOOL(pub u32);

impl BOOL {
    /// Whether this native boolean stands for `true`.
    pub fn is_truthy(self) -> (r: bool)
        ensures
            r == (self.0 != 0),
    {
        self.0 != 0
    }
}

impl From<bool> for BOOL {
    fn from(b: bool) -> (r: BOOL) {
        if b {
            BOOL(1)
        } else {
            BOOL(0)
        }
    }
}

impl vstd::std_specs::convert::FromSpecImpl<bool> for BOOL {
    open spec fn obeys_from_spec() -> bool {
        true
    }

    open spec fn from_spec(b: bool) -> BOOL {
        if b {
            BOOL(1)
        } else {
            BOOL(0)
        }
    }
}

impl From<BOOL> for bool {
    fn from(b: BOOL) -> (r: bool) {
        b.0 != 0
    }
}

impl vstd::std_specs::convert::FromSpecImpl<BOOL> for bool {
    open spec fn obeys_from_spec() -> bool {
        true
    }

    open spec fn from_spec(b: BOOL) -> bool {
        b.0 != 0
    }
}

} // verus!
