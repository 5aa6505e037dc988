//! Wrappers for a few utility types.

use vstd::prelude::*;

verus! {

/// Wraps the constant values for true and false elements of the native
/// boolean type.
#[derive(Copy, Clone, PartialEq, Eq, Structural, Debug)]
pub enum FfiBoolean {
    True,
    False,
}

impl FfiBoolean {
    /// The numeric value this variant stands for at the native boundary.
    pub open spec fn code_spec(self) -> i32 {
        match self {
            FfiBoolean::True => 1,
            FfiBoolean::False => 0,
        }
    }

    /// The boolean this variant stands for.
    pub open spec fn as_bool_spec(self) -> bool {
        self is True
    }

    pub fn code(self) -> (r: i32)
        ensures
            r == self.code_spec(),
    {
        match self {
            FfiBoolean::True => 1,
            FfiBoolean::False => 0,
        }
    }

    pub fn as_bool(self) -> (r: bool)
        ensures
            r == self.as_bool_spec(),
    {
        match self {
            FfiBoolean::True => true,
            FfiBoolean::False => false,
        }
    }

    /// The native constant for `true` maps back to `true`, the one for
    /// `false` maps back to `false`, and both directions are consistent.
    pub proof fn lemma_round_trip(input: bool, value: FfiBoolean)
        ensures
            FfiBoolean::from_bool_spec(input).as_bool_spec() == input,
            FfiBoolean::from_bool_spec(value.as_bool_spec()) == value,
    {
    }

    pub open spec fn from_bool_spec(input: bool) -> FfiBoolean {
        if input {
            FfiBoolean::True
        } else {
            FfiBoolean::False
        }
    }
}

impl From<bool> for FfiBoolean {
    fn from(input: bool) -> (r: FfiBoolean) {
        if input {
            FfiBoolean::True
        } else {
            FfiBoolean::False
        }
    }
}

impl vstd::std_specs::convert::FromSpecImpl<bool> for FfiBoolean {
    open spec fn obeys_from_spec() -> bool {
        true
    }

    open spec fn from_spec(t: bool) -> FfiBoolean {
        FfiBoolean::from_bool_spec(t)
    }
}

} // verus!
