//! Surface pixel formats the capture path understands.

use vstd::prelude::*;

verus! {

/// A surface format whose pixels the capture path can reorder into RGBA.
#[derive(Clone, Copy, Debug, PartialEq, Eq, Structural)]
pub enum Format {
    Bgra8UnormSrgb,
}

impl Format {
    /// The four RGBA bytes denoted by the pixel starting at `at` in this
    /// format's native byte order.
    pub open spec fn spec_swizzled(self, b: Seq<u8>, at: int) -> Seq<u8> {
        match self {
            Format::Bgra8UnormSrgb => seq![b[at + 2], b[at + 1], b[at], b[at + 3]],
        }
    }

    /// Reorder the pixel at `src[at..at + 4]` into RGBA at `dst[to..to + 4]`.
    pub fn swizzle(self, src: &Vec<u8>, at: usize, dst: &mut Vec<u8>, to: usize)
        requires
            at + 4 <= src.len(),
            to + 4 <= old(dst).len(),
        ensures
            final(dst).len() == old(dst).len(),
            final(dst)@.subrange(to as int, to + 4) == self.spec_swizzled(src@, at as int),
            forall|j: int|
                0 <= j < old(dst).len() && !(to <= j < to + 4) ==> final(dst)@[j] == old(
                    dst,
                )@[j],
    {
        match self {
            Format::Bgra8UnormSrgb => {
                dst.set(to, src[at + 2]);
                dst.set(to + 1, src[at + 1]);
                dst.set(to + 2, src[at]);
                dst.set(to + 3, src[at + 3]);
            },
        }
        proof {
            assert(dst@.subrange(to as int, to + 4) =~= self.spec_swizzled(src@, at as int));
        }
    }

    /// Append the pixel at `src[at..at + 4]` to `dst`, reordered into RGBA.
    pub fn swizzle_push(self, src: &Vec<u8>, at: usize, dst: &mut Vec<u8>)
        requires
            at + 4 <= src.len(),
            old(dst).len() + 4 <= usize::MAX,
        ensures
            final(dst)@ == old(dst)@ + self.spec_swizzled(src@, at as int),
    {
        match self {
            Format::Bgra8UnormSrgb => {
                dst.push(src[at + 2]);
                dst.push(src[at + 1]);
                dst.push(src[at]);
                dst.push(src[at + 3]);
            },
        }
        proof {
            assert(dst@ =~= old(dst)@ + self.spec_swizzled(src@, at as int));
        }
    }
}

} // verus!
