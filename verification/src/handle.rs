//! Opaque words that the firmware hands out: handles and the entries
//! of its operation tables.
use vstd::prelude::*;

verus! {

/// A handle that the firmware gave to a device or an image. It is
/// opaque: the only questions it answers are whether it is null and
/// whether it equals another handle.
#[derive(Clone, Copy, Debug, PartialEq, Eq, Structural)]
pub struct EfiHandle(pub usize);

impl EfiHandle {
    /// The null handle.
    pub fn null() -> (r: Self)
        ensures
            r == EfiHandle(0),
    {
        EfiHandle(0)
    }

    pub open spec fn spec_is_null(&self) -> bool {
        self.0 == 0
    }

    /// Whether this is the null handle.
    #[verifier::when_used_as_spec(spec_is_null)]
    pub fn is_null(&self) -> (r: bool)
        ensures
            r == self.spec_is_null(),
    {
        self.0 == 0
    }
}

/// The handle that the firmware is given where a handle is optional.
pub open spec fn handle_or_null(handle: Option<EfiHandle>) -> EfiHandle {
    match handle {
        Some(h) => h,
        None => EfiHandle(0),
    }
}

/// One slot of a firmware table: the address of an operation, or zero
/// where the firmware offers none.
#[derive(Clone, Copy, Debug, PartialEq, Eq, Structural)]
pub struct Slot(pub usize);

impl Slot {
    /// A slot that holds nothing.
    pub fn empty() -> (r: Self)
        ensures
            r == Slot(0),
    {
        Slot(0)
    }

    pub open spec fn spec_entry(&self) -> Option<usize> {
        if self.0 == 0 {
            None
        } else {
            Some(self.0)
        }
    }

    /// The address in the slot, if it holds one.
    #[verifier::when_used_as_spec(spec_entry)]
    pub fn entry(&self) -> (r: Option<usize>)
        ensures
            r == self.spec_entry(),
    {
        if self.0 == 0 {
            None
        } else {
            Some(self.0)
        }
    }
}

} // verus!
