//! Alignment arithmetic for the packed parameter records.

use vstd::prelude::*;

verus! {

/// Round `i` up to the next multiple of `alignment`.
pub open spec fn spec_pad(i: usize, alignment: usize) -> usize
    recommends
        alignment > 0,
{
    if i % alignment == 0 {
        i
    } else {
        (i + alignment - i % alignment) as usize
    }
}

/// Round `i` up to the next multiple of `alignment`; this is the unit of
/// padding between fields of a packed parameter record.
pub fn pad(i: usize, alignment: usize) -> (r: usize)
    requires
        alignment > 0,
        i + alignment - 1 <= usize::MAX,
    ensures
        r == spec_pad(i, alignment),
        r % alignment == 0,
        i <= r < i + alignment,
{
    let rem = i % alignment;
    if rem == 0 {
        i
    } else {
        proof {
            assert(rem <= i && (i - rem) % (alignment as int) == 0) by (nonlinear_arith)
                requires
                    alignment > 0,
                    rem == i % alignment,
            ;
            assert((i - rem + alignment) % (alignment as int) == 0) by (nonlinear_arith)
                requires
                    alignment > 0,
                    (i - rem) % (alignment as int) == 0,
            ;
        }
        i + (alignment - rem)
    }
}

} // verus!
