//! Grid geometry and ping-pong bootstrapping.
//!
//! With tiling disabled (`size == 1`) the filter chain ping-pongs across the
//! two full-resolution targets, and which target is valid to read before the
//! first pass depends on the parity of the chain length. With tiling enabled
//! every filter writes its own fresh cell of a grid, so both targets are
//! always valid. This type isolates exactly that divergence.

use vstd::prelude::*;
use crate::target::{RenderPass, Viewport};

verus! {

/// Grid layout for one frame: the edge length of one cell in pixels and the
/// number of cells along each grid edge (1 when tiling is disabled).
#[derive(Clone, Copy, Debug, PartialEq, Eq, Structural)]
pub struct Tiling {
    pub resolution: u32,
    pub size: u32,
}

impl Tiling {
    /// The state every `Tiling` the compositor builds satisfies: at least one
    /// cell per edge, and the whole grid addressable in pixels.
    pub open spec fn wf(self) -> bool {
        &&& self.size >= 1
        &&& self.resolution * self.size <= u32::MAX
    }

    pub open spec fn spec_back_read(self, filters: u32) -> bool {
        if self.size == 1 {
            filters % 2 == 0
        } else {
            true
        }
    }

    /// Whether the back target holds valid pixels before the fit pass, for a
    /// chain of `filters` filters.
    pub fn back_read(self, filters: u32) -> (r: bool)
        ensures
            r == self.spec_back_read(filters),
    {
        if self.size == 1 {
            filters % 2 == 0
        } else {
            true
        }
    }

    pub open spec fn spec_front_read(self, filters: u32) -> bool {
        if self.size == 1 {
            filters % 2 != 0
        } else {
            true
        }
    }

    /// Whether the front target holds valid pixels before the fit pass, for a
    /// chain of `filters` filters.
    pub fn front_read(self, filters: u32) -> (r: bool)
        ensures
            r == self.spec_front_read(filters),
    {
        if self.size == 1 {
            filters % 2 != 0
        } else {
            true
        }
    }

    pub open spec fn spec_offset(self, filter: u32) -> (u32, u32) {
        if self.size == 1 {
            (0u32, 0u32)
        } else {
            (
                (self.resolution * (filter % self.size)) as u32,
                (self.resolution * (filter / self.size)) as u32,
            )
        }
    }

    /// Top-left pixel offset of this filter's grid cell; `(0, 0)` when tiling
    /// is disabled.
    pub fn offset(self, filter: u32) -> (r: (u32, u32))
        requires
            self.wf(),
            self.size != 1 ==> filter < self.size * self.size,
        ensures
            r == self.spec_offset(filter),
    {
        if self.size == 1 {
            return (0, 0);
        }

        let col = filter % self.size;
        let row = filter / self.size;

        proof {
            assert(col < self.size);
            assert(row < self.size) by (nonlinear_arith)
                requires
                    self.size >= 1,
                    filter < self.size * self.size,
                    row == filter / self.size,
            ;
            assert(self.resolution * col <= u32::MAX && self.resolution * row <= u32::MAX)
                by (nonlinear_arith)
                requires
                    col < self.size,
                    row < self.size,
                    self.resolution * self.size <= u32::MAX,
            ;
        }

        (self.resolution * col, self.resolution * row)
    }

    /// Edge lengths of one grid cell.
    pub fn resolution(self) -> (r: (u32, u32))
        ensures
            r == (self.resolution, self.resolution),
    {
        (self.resolution, self.resolution)
    }

    pub open spec fn spec_source_offset(self, filter: u32) -> (u32, u32) {
        if self.size == 1 || filter == 0 {
            (0u32, 0u32)
        } else {
            (((filter - 1) as u32 % self.size, (filter - 1) as u32 / self.size))
        }
    }

    /// Grid coordinates of the cell the previous filter wrote, so a tiled
    /// pass can sample its predecessor's region; the shader divides by the
    /// grid side to normalize. `(0, 0)` for the first filter or when tiling is
    /// disabled.
    pub fn source_offset(self, filter: u32) -> (r: (u32, u32))
        requires
            self.size >= 1,
        ensures
            r == self.spec_source_offset(filter),
    {
        if self.size == 1 {
            return (0, 0);
        }

        if filter == 0 {
            return (0, 0);
        }

        let prev = filter - 1;

        (prev % self.size, prev / self.size)
    }

    /// Restrict the render pass to this filter's grid cell; leaves the pass
    /// covering the whole target when tiling is disabled.
    pub fn set_viewport(self, render_pass: &mut RenderPass, filter: u32)
        requires
            self.wf(),
            self.size != 1 ==> filter < self.size * self.size,
        ensures
            self.size == 1 ==> *final(render_pass) == *old(render_pass),
            self.size != 1 ==> final(render_pass).viewport == Some(Viewport {
                x: self.spec_offset(filter).0,
                y: self.spec_offset(filter).1,
                width: self.resolution,
                height: self.resolution,
            }),
    {
        if self.size == 1 {
            return;
        }

        let (x, y) = self.offset(filter);

        render_pass.viewport = Some(Viewport {
            x,
            y,
            width: self.resolution,
            height: self.resolution,
        });
    }
}

/// The bootstrap flags never both deny a read: for every chain length, at
/// least one ping-pong target is valid to read before the fit pass, and with
/// tiling enabled — where every cell is freshly written — both always are.
pub proof fn lemma_bootstrap_flags(t: Tiling, filters: u32)
    ensures
        t.spec_back_read(filters) || t.spec_front_read(filters),
        t.size != 1 ==> t.spec_back_read(filters) && t.spec_front_read(filters),
{
}

} // verus!
