//! The tagged optional that crosses the C boundary.

use vstd::prelude::*;

verus! {

/// An optional `u32` in the fixed two-field shape foreign bindings assume: a
/// payload slot followed by a one-byte discriminant.  The value is present
/// exactly when the discriminant is 1; for every other discriminant the
/// payload is ignored.
#[derive(Clone, Copy, Debug)]
pub struct OptionU32 {
    pub value: u32,
    pub is_some: u8,
}

impl View for OptionU32 {
    type V = Option<u32>;

    open spec fn view(&self) -> Option<u32> {
        if self.is_some == 1 {
            Some(self.value)
        } else {
            None
        }
    }
}

impl OptionU32 {
    /// A present value.
    pub fn some(value: u32) -> (r: OptionU32)
        ensures
            r@ == Some(value),
    {
        OptionU32 { value, is_some: 1 }
    }

    /// An absent value; the payload slot is left at zero.
    pub fn none() -> (r: OptionU32)
        ensures
            r@ == None::<u32>,
    {
        OptionU32 { value: 0, is_some: 0 }
    }

    /// The carried value, if the discriminant marks one as present.
    pub fn to_option(&self) -> (r: Option<u32>)
        ensures
            r == self@,
    {
        if self.is_some == 1 {
            Some(self.value)
        } else {
            None
        }
    }
}

} // verus!
