//! Integers that are never zero.

use vstd::prelude::*;

verus! {

/// A `u16` above zero. Its view is the number itself.
#[derive(Clone, Copy, Debug, PartialEq, Eq, PartialOrd, Ord, Hash, Structural)]
pub struct NonZeroU16 {
    value: u16,
}

impl View for NonZeroU16 {
    type V = u16;

    closed spec fn view(&self) -> u16 {
        self.value
    }
}

impl NonZeroU16 {
    #[verifier::type_invariant]
    spec fn above_zero(self) -> bool {
        self.value > 0
    }

    /// `None` exactly for zero.
    pub fn new(value: u16) -> (result: Option<Self>)
        ensures
            result is Some <==> value > 0,
            result is Some ==> result->0@ == value,
    {
        if value > 0 {
            Some(NonZeroU16 { value })
        } else {
            None
        }
    }

    /// One.
    pub fn min_value() -> (result: Self)
        ensures
            result@ == 1,
    {
        NonZeroU16 { value: 1 }
    }

    /// A number that is known to be above zero.
    pub fn of(value: u16) -> (result: Self)
        requires
            value > 0,
        ensures
            result@ == value,
    {
        NonZeroU16 { value }
    }

    pub fn get(self) -> (result: u16)
        ensures
            result == self@,
            result > 0,
    {
        proof {
            use_type_invariant(self);
        }
        self.value
    }
}

/// A `u32` above zero. Its view is the number itself.
#[derive(Clone, Copy, Debug, PartialEq, Eq, PartialOrd, Ord, Hash, Structural)]
pub struct NonZeroU32 {
    value: u32,
}

impl View for NonZeroU32 {
    type V = u32;

    closed spec fn view(&self) -> u32 {
        self.value
    }
}

impl NonZeroU32 {
    #[verifier::type_invariant]
    spec fn above_zero(self) -> bool {
        self.value > 0
    }

    /// `None` exactly for zero.
    pub fn new(value: u32) -> (result: Option<Self>)
        ensures
            result is Some <==> value > 0,
            result is Some ==> result->0@ == value,
    {
        if value > 0 {
            Some(NonZeroU32 { value })
        } else {
            None
        }
    }

    /// One.
    pub fn min_value() -> (result: Self)
        ensures
            result@ == 1,
    {
        NonZeroU32 { value: 1 }
    }

    pub fn get(self) -> (result: u32)
        ensures
            result == self@,
            result > 0,
    {
        proof {
            use_type_invariant(self);
        }
        self.value
    }
}

/// A `u64` above zero. Its view is the number itself.
#[derive(Clone, Copy, Debug, PartialEq, Eq, PartialOrd, Ord, Hash, Structural)]
pub struct NonZeroU64 {
    value: u64,
}

impl View for NonZeroU64 {
    type V = u64;

    closed spec fn view(&self) -> u64 {
        self.value
    }
}

impl NonZeroU64 {
    #[verifier::type_invariant]
    spec fn above_zero(self) -> bool {
        self.value > 0
    }

    /// `None` exactly for zero.
    pub fn new(value: u64) -> (result: Option<Self>)
        ensures
            result is Some <==> value > 0,
            result is Some ==> result->0@ == value,
    {
        if value > 0 {
            Some(NonZeroU64 { value })
        } else {
            None
        }
    }

    /// One.
    pub fn min_value() -> (result: Self)
        ensures
            result@ == 1,
    {
        NonZeroU64 { value: 1 }
    }

    pub fn get(self) -> (result: u64)
        ensures
            result == self@,
            result > 0,
    {
        proof {
            use_type_invariant(self);
        }
        self.value
    }
}

} // verus!
