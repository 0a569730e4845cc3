//! Session options that shape rendering.

use vstd::prelude::*;

verus! {

/// The rendering options a session runs with. Argument handling fills this
/// in; rendering only reads it.
#[derive(Clone, Copy, Debug)]
pub struct Options {
    /// Letterbox rather than crop in the composite pass.
    pub fit: bool,
    /// Wrap rather than clamp sampling in the composite pass.
    pub repeat: bool,
    /// Override of the render resolution, if any.
    pub resolution: Option<u32>,
    /// Lay filter outputs into a grid instead of chaining at full resolution.
    pub tile: bool,
}

impl Default for Options {
    fn default() -> (r: Self)
        ensures
            !r.fit && !r.repeat && r.resolution is None && !r.tile,
    {
        Options { fit: false, repeat: false, resolution: None, tile: false }
    }
}

impl Options {
    /// The render resolution: the override if one was given, otherwise the
    /// window's larger edge, and at least one pixel either way.
    pub fn resolution(&self, width: u32, height: u32) -> (r: u32)
        ensures
            r == ({
                let base: u32 = match self.resolution {
                    Some(o) => o,
                    None => if width > height {
                        width
                    } else {
                        height
                    },
                };
                if base > 1 {
                    base
                } else {
                    1u32
                }
            }),
            r >= 1,
    {
        let base = match self.resolution {
            Some(o) => o,
            None => if width > height {
                width
            } else {
                height
            },
        };
        if base > 1 {
            base
        } else {
            1
        }
    }
}

} // verus!
