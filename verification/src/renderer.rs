//! The compositor's per-frame decisions.
//!
//! Rendering one frame is a fixed sequence: clear both ping-pong targets,
//! one pass per filter bouncing between them, a fit pass that lays the
//! result into the tiling texture, and a final composite of tiling output
//! plus overlay into the surface. Everything the GPU needs to be told —
//! which target each pass reads and writes, which viewport it covers, and
//! the full parameter record it is bound to — is computed here as a
//! [`FramePlan`]; the embedding submits the plan verbatim. One parameter
//! record is issued per filter plus one for the fit pass and one for the
//! composite pass.

use vstd::prelude::*;
use crate::field::Field;
use crate::filter::Filter;
use crate::format::Format;
use crate::matrix::{Mat3, Mat4, spec_mat3_identity, spec_mat4_identity};
use crate::target::{RenderPass, Target, Viewport};
use crate::tiling::Tiling;
use crate::uniforms::{stride, Uniforms};

verus! {

/// Bytes per pixel of the render targets.
pub const CHANNELS: u32 = 4;

/// The row alignment the device requires of texture-to-buffer copies.
pub const COPY_ROW_ALIGNMENT: u32 = 256;

/// The frame-wide inputs a plan depends on besides the filter chain itself.
/// Fields documented as bit patterns hold IEEE 754 single-precision
/// encodings computed by the embedding.
#[derive(Clone, Copy, Debug)]
pub struct FrameConfig {
    /// Letterbox rather than crop in the composite pass.
    pub fit: bool,
    /// Wrap rather than clamp sampling in the composite pass.
    pub repeat: bool,
    /// Lay the filter outputs into a grid instead of chaining at full
    /// resolution.
    pub tile: bool,
    /// Edge length of the square render targets in pixels.
    pub resolution: u32,
    /// Surface size in pixels.
    pub surface: (u32, u32),
    /// Linear gain (bit pattern).
    pub gain: u32,
    /// Smoothed loudness (bit pattern).
    pub rms: u32,
    /// Fresh fraction of the spectrum texture (bit pattern).
    pub frequency_range: u32,
    /// Fresh fraction of the sample texture (bit pattern).
    pub sample_range: u32,
}

/// What one pass of the frame does.
#[derive(Clone, Copy, Debug, PartialEq, Eq, Structural)]
pub enum PassKind {
    /// Apply one filter: read ping-pong target `source`, write `destination`.
    Filter { source: u32, destination: u32 },
    /// Composite the chain's output into the tiling texture.
    Fit,
    /// Blend the tiling texture and the overlay into the surface.
    Composite,
}

/// One recorded pass: what it does, which parameter record it binds, and the
/// viewport it is restricted to.
#[derive(Clone, Copy, Debug, PartialEq, Eq, Structural)]
pub struct Pass {
    pub kind: PassKind,
    pub uniform_index: u32,
    pub viewport: Option<Viewport>,
}

/// Everything the embedding submits for one frame.
pub struct FramePlan {
    /// One parameter record per pass, in pass order.
    pub uniforms: Vec<Uniforms>,
    /// The passes, in submission order.
    pub passes: Vec<Pass>,
    /// The grid geometry the plan was built with.
    pub tiling: Tiling,
}

/// The parameter record of filter pass `i`.
pub open spec fn spec_filter_record(
    f: Filter,
    i: u32,
    filter_count: u32,
    t: Tiling,
    c: FrameConfig,
) -> Uniforms {
    Uniforms {
        back_read: false,
        color: f.color,
        coordinates: f.coordinates,
        field: f.field,
        filters: filter_count,
        fit: false,
        frequency_range: c.frequency_range,
        front_offset: t.spec_source_offset(i),
        front_read: true,
        gain: c.gain,
        index: i,
        offset: t.spec_offset(i),
        position: f.position,
        repeat: false,
        resolution: (t.resolution, t.resolution),
        rms: c.rms,
        sample_range: c.sample_range,
        tiling: t.size,
        wrap: f.wrap,
    }
}

/// The parameter record of the fit pass: identity transforms, no pattern,
/// and the ping-pong bootstrap flags for a chain of `filter_count` filters.
pub open spec fn spec_fit_record_ok(u: Uniforms, filter_count: u32, t: Tiling, c: FrameConfig) -> bool {
    &&& u.back_read == t.spec_back_read(filter_count)
    &&& u.color.entries@ == spec_mat4_identity()
    &&& u.coordinates == false
    &&& u.field == Field::Nothing
    &&& u.filters == filter_count
    &&& u.fit == c.fit
    &&& u.frequency_range == c.frequency_range
    &&& u.front_offset == (0u32, 0u32)
    &&& u.front_read == t.spec_front_read(filter_count)
    &&& u.gain == c.gain
    &&& u.index == filter_count
    &&& u.offset == (0u32, 0u32)
    &&& u.position.entries@ == spec_mat3_identity()
    &&& u.repeat == c.repeat
    &&& u.resolution == (c.resolution, c.resolution)
    &&& u.rms == c.rms
    &&& u.sample_range == c.sample_range
    &&& u.tiling == 1u32
    &&& u.wrap == false
}

/// The parameter record of the composite pass: identity transforms, both
/// sources readable, sized to the surface.
pub open spec fn spec_composite_record_ok(
    u: Uniforms,
    filter_count: u32,
    c: FrameConfig,
) -> bool {
    &&& u.back_read == true
    &&& u.color.entries@ == spec_mat4_identity()
    &&& u.coordinates == false
    &&& u.field == Field::Nothing
    &&& u.filters == filter_count
    &&& u.fit == c.fit
    &&& u.frequency_range == c.frequency_range
    &&& u.front_offset == (0u32, 0u32)
    &&& u.front_read == true
    &&& u.gain == c.gain
    &&& u.index == filter_count
    &&& u.offset == (0u32, 0u32)
    &&& u.position.entries@ == spec_mat3_identity()
    &&& u.repeat == c.repeat
    &&& u.resolution == c.surface
    &&& u.rms == c.rms
    &&& u.sample_range == c.sample_range
    &&& u.tiling == 1u32
    &&& u.wrap == false
}

/// The smallest square grid with room for every filter: the ceiling of the
/// square root of the chain length, and a single cell for an empty chain or
/// when tiling is disabled.
pub fn grid_side(filters: usize, tile: bool) -> (r: u32)
    requires
        filters <= u32::MAX,
    ensures
        r >= 1,
        !tile ==> r == 1,
        tile ==> ({
            let m: int = if filters == 0 {
                1
            } else {
                filters as int
            };
            (r - 1) * (r - 1) < m <= r * r
        }),
{
    if !tile {
        return 1;
    }

    let m: u64 = if filters == 0 {
        1
    } else {
        filters as u64
    };

    let mut r: u64 = 0;
    while r * r < m
        invariant
            1 <= m <= u32::MAX,
            r == 0 || (r - 1) * (r - 1) < m,
            r <= m,
            r <= 0x1_0000,
            r * r <= 0x1_0000_0000,
        decreases m - r,
    {
        proof {
            assert(r < 0x1_0000 && r + 1 <= m && (r + 1) * (r + 1) <= 0x1_0000_0000)
                by (nonlinear_arith)
                requires
                    r * r < m,
                    1 <= m <= u32::MAX,
                    r <= 0x1_0000,
            ;
        }
        r += 1;
    }

    proof {
        assert(r >= 1);
    }
    r as u32
}

/// Build the whole frame: one record and one pass per filter, bouncing
/// between the two ping-pong targets, then the fit pass and the composite
/// pass with their two trailing records.
pub fn plan_frame(filters: &Vec<Filter>, config: &FrameConfig) -> (plan: FramePlan)
    requires
        filters.len() + 2 <= u32::MAX,
        config.resolution >= 1,
    ensures
        plan.tiling.wf(),
        plan.tiling.size >= 1,
        !config.tile ==> plan.tiling.size == 1 && plan.tiling.resolution == config.resolution,
        config.tile ==> ({
            let m: int = if filters.len() == 0 {
                1
            } else {
                filters.len() as int
            };
            &&& (plan.tiling.size - 1) * (plan.tiling.size - 1) < m <= plan.tiling.size
                * plan.tiling.size
            &&& plan.tiling.resolution == config.resolution as int / plan.tiling.size as int
        }),
        plan.uniforms.len() == filters.len() + 2,
        plan.passes.len() == filters.len() + 2,
        forall|i: int|
            0 <= i < filters.len() ==> plan.uniforms@[i] == spec_filter_record(
                filters@[i],
                i as u32,
                filters.len() as u32,
                plan.tiling,
                *config,
            ),
        spec_fit_record_ok(
            plan.uniforms@[filters.len() as int],
            filters.len() as u32,
            plan.tiling,
            *config,
        ),
        spec_composite_record_ok(
            plan.uniforms@[filters.len() + 1],
            filters.len() as u32,
            *config,
        ),
        forall|i: int|
            0 <= i < filters.len() ==> plan.passes@[i] == (Pass {
                kind: PassKind::Filter {
                    source: (i % 2) as u32,
                    destination: ((i + 1) % 2) as u32,
                },
                uniform_index: i as u32,
                viewport: if plan.tiling.size == 1 {
                    Option::<Viewport>::None
                } else {
                    Option::<Viewport>::Some(Viewport {
                        x: plan.tiling.spec_offset(i as u32).0,
                        y: plan.tiling.spec_offset(i as u32).1,
                        width: plan.tiling.resolution,
                        height: plan.tiling.resolution,
                    })
                },
            }),
        plan.passes@[filters.len() as int] == (Pass {
            kind: PassKind::Fit,
            uniform_index: filters.len() as u32,
            viewport: Option::<Viewport>::None,
        }),
        plan.passes@[filters.len() + 1] == (Pass {
            kind: PassKind::Composite,
            uniform_index: (filters.len() + 1) as u32,
            viewport: Option::<Viewport>::None,
        }),
        plan.spec_chain_shape(),
{
    let filter_count = filters.len() as u32;

    let size = grid_side(filters.len(), config.tile);
    let resolution = config.resolution / size;
    proof {
        assert(resolution * size <= config.resolution) by (nonlinear_arith)
            requires
                size >= 1,
                resolution == config.resolution as int / size as int,
                config.resolution >= 0,
        ;
    }
    let tiling = Tiling { resolution, size };

    let mut uniforms: Vec<Uniforms> = Vec::new();
    let mut passes: Vec<Pass> = Vec::new();

    let mut i: usize = 0;
    while i < filters.len()
        invariant
            i <= filters.len(),
            filters.len() + 2 <= u32::MAX,
            filter_count == filters.len() as u32,
            tiling.wf(),
            tiling.size == 1 || ({
                let m: int = if filters.len() == 0 {
                    1
                } else {
                    filters.len() as int
                };
                m <= tiling.size * tiling.size
            }),
            uniforms.len() == i,
            passes.len() == i,
            forall|j: int|
                0 <= j < i ==> uniforms@[j] == spec_filter_record(
                    filters@[j],
                    j as u32,
                    filter_count,
                    tiling,
                    *config,
                ),
            forall|j: int|
                0 <= j < i ==> passes@[j] == (Pass {
                    kind: PassKind::Filter {
                        source: (j % 2) as u32,
                        destination: ((j + 1) % 2) as u32,
                    },
                    uniform_index: j as u32,
                    viewport: if tiling.size == 1 {
                        Option::<Viewport>::None
                    } else {
                        Option::<Viewport>::Some(Viewport {
                            x: tiling.spec_offset(j as u32).0,
                            y: tiling.spec_offset(j as u32).1,
                            width: tiling.resolution,
                            height: tiling.resolution,
                        })
                    },
                }),
        decreases filters.len() - i,
    {
        let index = i as u32;
        proof {
            if tiling.size != 1 {
                assert(filters.len() as int <= tiling.size * tiling.size);
                assert(index < tiling.size * tiling.size);
            }
        }
        let filter = filters[i];

        uniforms.push(Uniforms {
            back_read: false,
            color: filter.color,
            coordinates: filter.coordinates,
            field: filter.field,
            filters: filter_count,
            fit: false,
            frequency_range: config.frequency_range,
            front_offset: tiling.source_offset(index),
            front_read: true,
            gain: config.gain,
            index,
            offset: tiling.offset(index),
            position: filter.position,
            repeat: false,
            resolution: tiling.resolution(),
            rms: config.rms,
            sample_range: config.sample_range,
            tiling: tiling.size,
            wrap: filter.wrap,
        });

        let mut pass = RenderPass::begin();
        tiling.set_viewport(&mut pass, index);

        passes.push(Pass {
            kind: PassKind::Filter { source: index % 2, destination: (index + 1) % 2 },
            uniform_index: index,
            viewport: pass.viewport,
        });

        i += 1;
    }

    uniforms.push(Uniforms {
        back_read: tiling.back_read(filter_count),
        color: Mat4::identity(),
        coordinates: false,
        field: Field::Nothing,
        filters: filter_count,
        fit: config.fit,
        frequency_range: config.frequency_range,
        front_offset: (0, 0),
        front_read: tiling.front_read(filter_count),
        gain: config.gain,
        index: filter_count,
        offset: (0, 0),
        position: Mat3::identity(),
        repeat: config.repeat,
        resolution: (config.resolution, config.resolution),
        rms: config.rms,
        sample_range: config.sample_range,
        tiling: 1,
        wrap: false,
    });

    passes.push(Pass {
        kind: PassKind::Fit,
        uniform_index: filter_count,
        viewport: None,
    });

    uniforms.push(Uniforms {
        back_read: true,
        color: Mat4::identity(),
        coordinates: false,
        field: Field::Nothing,
        filters: filter_count,
        fit: config.fit,
        frequency_range: config.frequency_range,
        front_offset: (0, 0),
        front_read: true,
        gain: config.gain,
        index: filter_count,
        offset: (0, 0),
        position: Mat3::identity(),
        repeat: config.repeat,
        resolution: config.surface,
        rms: config.rms,
        sample_range: config.sample_range,
        tiling: 1,
        wrap: false,
    });

    passes.push(Pass {
        kind: PassKind::Composite,
        uniform_index: filter_count + 1,
        viewport: None,
    });

    FramePlan { uniforms, passes, tiling }
}

impl FramePlan {
    /// The chain's passes have the planned ping-pong shape: pass `i` reads
    /// target `i % 2` and writes the other.
    pub open spec fn spec_chain_shape(self) -> bool {
        &&& self.passes@.len() >= 2
        &&& forall|i: int|
            0 <= i < self.passes@.len() - 2 ==> ((#[trigger] self.passes@[i].kind) matches
                PassKind::Filter { source, destination } && source == (i % 2) as u32
                && destination == ((i + 1) % 2) as u32)
    }

    /// Replay the chain's passes over the model target pair, marking which
    /// pass last wrote each target, and return the target holding the
    /// chain's output: after the whole chain the written target alternates
    /// back to the one the bootstrap flags mark readable, whatever the
    /// parity of the chain length.
    pub fn replay(&self, back: &mut Target, front: &mut Target) -> (r: Option<u32>)
        requires
            self.spec_chain_shape(),
            old(back).cleared,
            old(front).cleared,
        ensures
            ({
                let k = self.passes@.len() - 2;
                &&& final(back).cleared && final(front).cleared
                &&& final(back).resolution == old(back).resolution
                &&& final(front).resolution == old(front).resolution
                &&& (k == 0 ==> r is None && final(back).last_written == old(back).last_written
                    && final(front).last_written == old(front).last_written)
                &&& (k >= 1 ==> r == Some((k % 2) as u32))
                &&& (k % 2 == 1 ==> final(front).last_written == Some((k - 1) as u32))
                &&& (k >= 2 && k % 2 == 0 ==> final(front).last_written == Some((k - 2) as u32))
                &&& (k >= 2 && k % 2 == 1 ==> final(back).last_written == Some((k - 2) as u32))
                &&& (k >= 1 && k % 2 == 0 ==> final(back).last_written == Some((k - 1) as u32))
                &&& (self.tiling.size == 1 && 1 <= k <= u32::MAX ==> ((r == Some(1u32))
                    <==> self.tiling.spec_front_read(k as u32)) && ((r == Some(0u32))
                    <==> self.tiling.spec_back_read(k as u32)))
            }),
    {
        let k = self.passes.len() - 2;
        let mut last: Option<u32> = None;
        let mut i: usize = 0;
        while i < k
            invariant
                i <= k,
                k == self.passes@.len() - 2,
                self.spec_chain_shape(),
                back.cleared && front.cleared,
                back.resolution == old(back).resolution,
                front.resolution == old(front).resolution,
                i == 0 ==> last is None && back.last_written == old(back).last_written
                    && front.last_written == old(front).last_written,
                i >= 1 ==> last == Some((i % 2) as u32),
                i % 2 == 1 ==> front.last_written == Some((i - 1) as u32),
                i >= 2 && i % 2 == 0 ==> front.last_written == Some((i - 2) as u32),
                i >= 2 && i % 2 == 1 ==> back.last_written == Some((i - 2) as u32),
                i >= 1 && i % 2 == 0 ==> back.last_written == Some((i - 1) as u32),
                i == 1 ==> back.last_written == old(back).last_written,
            decreases k - i,
        {
            match self.passes[i].kind {
                PassKind::Filter { source: _, destination } => {
                    if destination == 0 {
                        back.last_written = Some(i as u32);
                    } else {
                        front.last_written = Some(i as u32);
                    }
                    last = Some(destination);
                },
                PassKind::Fit => {
                    proof {
                        assert(false);
                    }
                },
                PassKind::Composite => {
                    proof {
                        assert(false);
                    }
                },
            }
            i += 1;
        }
        last
    }
}

/// With tiling disabled, filter pass `i` reads ping-pong target `i % 2` and
/// writes the other; after the whole chain the target holding the final
/// image is exactly the one the bootstrap flags mark readable, whatever the
/// chain length's parity.
pub proof fn lemma_pingpong_parity(t: Tiling, k: u32)
    requires
        t.size == 1,
    ensures
        t.spec_back_read(k) <==> k % 2 == 0,
        t.spec_front_read(k) <==> k % 2 != 0,
        k >= 1 ==> (((k - 1) % 2 + 1) % 2 == k % 2),
{
    if k >= 1 {
        assert(((k - 1) % 2 + 1) % 2 == k % 2) by (bit_vector)
            requires
                k >= 1,
        ;
    }
}

/// Padded length of one copied row of a square capture at this resolution.
pub fn bytes_per_row_with_padding(resolution: u32) -> (r: u32)
    requires
        resolution * CHANNELS + COPY_ROW_ALIGNMENT - 1 <= u32::MAX,
    ensures
        r % COPY_ROW_ALIGNMENT == 0,
        resolution * CHANNELS <= r < resolution * CHANNELS + COPY_ROW_ALIGNMENT,
{
    stride(resolution * CHANNELS, COPY_ROW_ALIGNMENT)
}

/// Tightly repack a padded, device-ordered capture into top-to-bottom RGBA
/// bytes: row `y`, pixel `x` of the result is the swizzled pixel found at
/// `y * padded_row + 4 * x` of the copied buffer.
pub fn repack_capture(format: Format, src: &Vec<u8>, resolution: u32, padded_row: u32) -> (out:
    Vec<u8>)
    requires
        CHANNELS * resolution <= padded_row,
        resolution * padded_row <= src.len(),
        CHANNELS * resolution * resolution <= usize::MAX,
    ensures
        out.len() == CHANNELS * resolution * resolution,
        forall|y: int, x: int|
            0 <= y < resolution && 0 <= x < resolution ==> #[trigger] out@.subrange(
                CHANNELS * (y * resolution + x),
                CHANNELS * (y * resolution + x) + 4,
            ) == format.spec_swizzled(src@, y * padded_row + CHANNELS * x),
{
    let res = resolution as usize;
    let row_bytes = CHANNELS as usize * res;
    let padded = padded_row as usize;

    let mut out: Vec<u8> = Vec::new();
    let mut y: usize = 0;
    while y < res
        invariant
            y <= res,
            res == resolution,
            row_bytes == CHANNELS * resolution,
            padded == padded_row,
            CHANNELS * resolution <= padded_row,
            resolution * padded_row <= src.len(),
            CHANNELS * resolution * resolution <= usize::MAX,
            out.len() == y * row_bytes,
            forall|yy: int, x: int|
                0 <= yy < y && 0 <= x < res ==> #[trigger] out@.subrange(
                    CHANNELS * (yy * res + x),
                    CHANNELS * (yy * res + x) + 4,
                ) == format.spec_swizzled(src@, yy * padded + CHANNELS * x),
        decreases res - y,
    {
        proof {
            assert(y * padded + padded <= resolution * padded_row && (y + 1) * row_bytes == y
                * row_bytes + row_bytes && y * row_bytes + row_bytes <= CHANNELS * resolution
                * resolution) by (nonlinear_arith)
                requires
                    y < res,
                    res == resolution,
                    padded == padded_row,
                    row_bytes == CHANNELS * resolution,
                    CHANNELS * resolution <= padded_row,
                    CHANNELS * resolution * resolution == resolution * (CHANNELS * resolution),
            ;
        }
        let row_start = y * padded;
        let mut x: usize = 0;
        while x < res
            invariant
                x <= res,
                y < res,
                res == resolution,
                row_bytes == CHANNELS * resolution,
                padded == padded_row,
                CHANNELS * resolution <= padded_row,
                resolution * padded_row <= src.len(),
                CHANNELS * resolution * resolution <= usize::MAX,
                row_start == y * padded,
                row_start + padded <= src.len(),
                out.len() == y * row_bytes + CHANNELS * x,
                y * row_bytes + row_bytes <= CHANNELS * resolution * resolution,
                forall|yy: int, xx: int|
                    0 <= yy < y && 0 <= xx < res ==> #[trigger] out@.subrange(
                        CHANNELS * (yy * res + xx),
                        CHANNELS * (yy * res + xx) + 4,
                    ) == format.spec_swizzled(src@, yy * padded + CHANNELS * xx),
                forall|xx: int|
                    0 <= xx < x ==> #[trigger] out@.subrange(
                        CHANNELS * (y * res + xx),
                        CHANNELS * (y * res + xx) + 4,
                    ) == format.spec_swizzled(src@, y * padded + CHANNELS * xx),
            decreases res - x,
        {
            let ghost before = out@;
            let pixel = row_start + CHANNELS as usize * x;
            proof {
                assert(pixel + 4 <= row_start + padded && CHANNELS * (y * res + x) == y
                    * row_bytes + CHANNELS * x) by (nonlinear_arith)
                    requires
                        x < res,
                        pixel == row_start + CHANNELS * x,
                        padded >= CHANNELS * res,
                        row_bytes == CHANNELS * res,
                        res == resolution,
                        CHANNELS == 4,
                ;
            }
            format.swizzle_push(src, pixel, &mut out);
            proof {
                assert forall|yy: int, xx: int|
                    0 <= yy < y && 0 <= xx < res implies #[trigger] out@.subrange(
                    CHANNELS * (yy * res + xx),
                    CHANNELS * (yy * res + xx) + 4,
                ) == format.spec_swizzled(src@, yy * padded + CHANNELS * xx) by {
                    assert(CHANNELS * (yy * res + xx) + 4 <= before.len()) by (nonlinear_arith)
                        requires
                            0 <= yy < y,
                            0 <= xx < res,
                            before.len() == y * (CHANNELS * res) + CHANNELS * x,
                            x >= 0,
                            CHANNELS == 4,
                            res == resolution,
                    ;
                    assert(out@.subrange(
                        CHANNELS * (yy * res + xx),
                        CHANNELS * (yy * res + xx) + 4,
                    ) =~= before.subrange(
                        CHANNELS * (yy * res + xx),
                        CHANNELS * (yy * res + xx) + 4,
                    ));
                }
                assert forall|xx: int| 0 <= xx < x + 1 implies #[trigger] out@.subrange(
                    CHANNELS * (y * res + xx),
                    CHANNELS * (y * res + xx) + 4,
                ) == format.spec_swizzled(src@, y * padded + CHANNELS * xx) by {
                    if xx < x {
                        assert(CHANNELS * (y * res + xx) + 4 <= before.len())
                            by (nonlinear_arith)
                            requires
                                0 <= xx < x,
                                before.len() == y * (CHANNELS * res) + CHANNELS * x,
                                y * res + xx < y * res + x,
                                CHANNELS == 4,
                                CHANNELS * (y * res + xx) == 4 * (y * res) + 4 * xx,
                                before.len() == 4 * (y * res) + 4 * x,
                        ;
                        assert(out@.subrange(
                            CHANNELS * (y * res + xx),
                            CHANNELS * (y * res + xx) + 4,
                        ) =~= before.subrange(
                            CHANNELS * (y * res + xx),
                            CHANNELS * (y * res + xx) + 4,
                        ));
                    } else {
                        assert(CHANNELS * (y * res + xx) == before.len()) by (nonlinear_arith)
                            requires
                                xx == x,
                                before.len() == y * (CHANNELS * res) + CHANNELS * x,
                                CHANNELS == 4,
                        ;
                        assert(out@.subrange(
                            CHANNELS * (y * res + xx),
                            CHANNELS * (y * res + xx) + 4,
                        ) =~= format.spec_swizzled(src@, y * padded + CHANNELS * xx));
                    }
                }
            }
            x += 1;
        }
        proof {
            assert((y + 1) * row_bytes == y * row_bytes + row_bytes) by (nonlinear_arith);
        }
        y += 1;
    }
    proof {
        assert(res * row_bytes == CHANNELS * resolution * resolution) by (nonlinear_arith)
            requires
                res == resolution,
                row_bytes == CHANNELS * resolution,
        ;
    }
    out
}

} // verus!
