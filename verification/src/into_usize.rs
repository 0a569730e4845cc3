//! Lossless widening into `usize` for values used as lengths and indices.

use vstd::prelude::*;

verus! {

/// A value that always fits in a `usize`.
pub trait IntoUsize: Sized {
    spec fn spec_into_usize(self) -> usize;

    fn into_usize(self) -> (r: usize)
        ensures
            r == self.spec_into_usize(),
    ;
}

impl IntoUsize for u32 {
    open spec fn spec_into_usize(self) -> usize {
        self as usize
    }

    fn into_usize(self) -> (r: usize) {
        self as usize
    }
}

} // verus!
