//! Frame planning: record counts, ping-pong parity, tiling geometry,
//! resizing, and the capture path.

use visualizer::field::Field;
use visualizer::filter::Filter;
use visualizer::format::Format;
use visualizer::options::Options;
use visualizer::renderer::{
    bytes_per_row_with_padding, grid_side, plan_frame, repack_capture, FrameConfig, PassKind,
};
use visualizer::target::{RenderPass, Target, Viewport};
use visualizer::tiling::Tiling;
use visualizer::uniforms::{pack_records, stride, RECORD_SIZE};

fn config(resolution: u32, tile: bool) -> FrameConfig {
    FrameConfig {
        fit: false,
        repeat: false,
        tile,
        resolution,
        surface: (resolution, resolution),
        gain: 1.0f32.to_bits(),
        rms: 0.5f32.to_bits(),
        frequency_range: 0.25f32.to_bits(),
        sample_range: 0.75f32.to_bits(),
    }
}

fn chain(len: usize) -> Vec<Filter> {
    (0..len)
        .map(|i| {
            let mut filter = Filter::default();
            filter.field = if i % 2 == 0 { Field::Circle } else { Field::Top };
            filter.wrap = i % 2 == 1;
            filter
        })
        .collect()
}

#[test]
fn every_chain_gets_two_extra_records() {
    for k in 0..6 {
        let plan = plan_frame(&chain(k), &config(1024, false));
        assert_eq!(plan.uniforms.len(), k + 2);
        assert_eq!(plan.passes.len(), k + 2);
        assert_eq!(plan.uniforms[k].index, k as u32);
        assert_eq!(plan.uniforms[k + 1].index, k as u32);
        assert_eq!(plan.passes[k].kind, PassKind::Fit);
        assert_eq!(plan.passes[k + 1].kind, PassKind::Composite);
    }
}

#[test]
fn three_filters_swap_twice_and_land_where_the_flags_say() {
    let plan = plan_frame(&chain(3), &config(1024, false));

    let mut reads = Vec::new();
    let mut writes = Vec::new();
    for pass in &plan.passes {
        if let PassKind::Filter {
            source,
            destination,
        } = pass.kind
        {
            reads.push(source);
            writes.push(destination);
        }
    }
    assert_eq!(reads, vec![0, 1, 0]);
    assert_eq!(writes, vec![1, 0, 1]);

    // The read target changes twice across the three passes, and the chain's
    // output sits in the front target, which is exactly what the bootstrap
    // flags report for an odd chain.
    let swaps = reads.windows(2).filter(|w| w[0] != w[1]).count();
    assert_eq!(swaps, 2);
    let last_written = *writes.last().unwrap();
    assert_eq!(last_written, 1);
    assert!(!plan.tiling.back_read(3));
    assert!(plan.tiling.front_read(3));
    assert!(!plan.uniforms[3].back_read);
    assert!(plan.uniforms[3].front_read);

    // Replaying the model targets records the same handoff.
    let mut back = Target::new(1024);
    let mut front = Target::new(1024);
    back.clear();
    front.clear();
    let output = plan.replay(&mut back, &mut front);
    assert_eq!(output, Some(1));
    assert_eq!(back.last_written, Some(1));
    assert_eq!(front.last_written, Some(2));

    let plan = plan_frame(&chain(2), &config(1024, false));
    assert!(plan.uniforms[2].back_read);
    assert!(!plan.uniforms[2].front_read);
}

#[test]
fn bootstrap_flags_never_both_deny() {
    for size in [1u32, 2, 3] {
        let tiling = Tiling {
            resolution: 256,
            size,
        };
        for k in 0..9u32 {
            assert!(tiling.back_read(k) || tiling.front_read(k));
            if size != 1 {
                assert!(tiling.back_read(k) && tiling.front_read(k));
            }
        }
    }
}

#[test]
fn grid_side_is_the_ceiling_square_root() {
    assert_eq!(grid_side(0, true), 1);
    assert_eq!(grid_side(1, true), 1);
    assert_eq!(grid_side(2, true), 2);
    assert_eq!(grid_side(4, true), 2);
    assert_eq!(grid_side(5, true), 3);
    assert_eq!(grid_side(9, true), 3);
    assert_eq!(grid_side(10, true), 4);
    assert_eq!(grid_side(100, false), 1);
}

#[test]
fn tiled_passes_cover_their_cells() {
    let plan = plan_frame(&chain(5), &config(900, true));
    assert_eq!(plan.tiling.size, 3);
    assert_eq!(plan.tiling.resolution, 300);

    for (i, pass) in plan.passes.iter().take(5).enumerate() {
        let col = (i as u32) % 3;
        let row = (i as u32) / 3;
        assert_eq!(
            pass.viewport,
            Some(Viewport {
                x: 300 * col,
                y: 300 * row,
                width: 300,
                height: 300,
            })
        );
        assert_eq!(plan.uniforms[i].offset, (300 * col, 300 * row));
        assert_eq!(plan.uniforms[i].tiling, 3);
    }
    // The first filter samples the origin; later ones their predecessor's
    // cell.
    assert_eq!(plan.uniforms[0].front_offset, (0, 0));
    assert_eq!(plan.uniforms[4].front_offset, (0, 1));

    // Disabled tiling leaves every pass covering the whole target.
    let plan = plan_frame(&chain(5), &config(900, false));
    for pass in &plan.passes {
        assert_eq!(pass.viewport, None);
    }
}

#[test]
fn replayed_resize_reproduces_identical_records() {
    let filters = chain(4);
    let s = stride(RECORD_SIZE as u32, 256) as usize;
    let pack = |resolution: u32| {
        let plan = plan_frame(&filters, &config(resolution, true));
        pack_records(&plan.uniforms, s)
    };
    let first = pack(1024);
    let halved = pack(512);
    let restored = pack(1024);
    assert_ne!(first, halved);
    assert_eq!(first, restored);
}

#[test]
fn capture_rows_are_swizzled_and_tightly_packed() {
    let resolution = 2u32;
    let padded = bytes_per_row_with_padding(resolution);
    assert_eq!(padded, 256);

    let mut src = vec![0u8; (resolution * padded) as usize];
    // Row 0: a blue pixel and a green pixel; row 1: red, then gray.
    src[0..4].copy_from_slice(&[255, 0, 0, 255]);
    src[4..8].copy_from_slice(&[0, 255, 0, 255]);
    let row1 = padded as usize;
    src[row1..row1 + 4].copy_from_slice(&[0, 0, 255, 255]);
    src[row1 + 4..row1 + 8].copy_from_slice(&[9, 9, 9, 9]);

    let out = repack_capture(Format::Bgra8UnormSrgb, &src, resolution, padded);
    assert_eq!(
        out,
        vec![
            0, 0, 255, 255, //
            0, 255, 0, 255, //
            255, 0, 0, 255, //
            9, 9, 9, 9,
        ]
    );
}

#[test]
fn viewport_model_tracks_the_grid() {
    let tiling = Tiling {
        resolution: 100,
        size: 2,
    };
    let mut pass = RenderPass::begin();
    assert_eq!(pass.viewport, None);
    tiling.set_viewport(&mut pass, 3);
    assert_eq!(
        pass.viewport,
        Some(Viewport {
            x: 100,
            y: 100,
            width: 100,
            height: 100,
        })
    );
    assert_eq!(tiling.offset(3), (100, 100));
    assert_eq!(tiling.source_offset(3), (0, 1));
    assert_eq!(tiling.resolution(), (100, 100));

    let full = Tiling {
        resolution: 1024,
        size: 1,
    };
    let mut pass = RenderPass::begin();
    full.set_viewport(&mut pass, 7);
    assert_eq!(pass.viewport, None);
    assert_eq!(full.offset(7), (0, 0));
    assert_eq!(full.source_offset(7), (0, 0));
}

#[test]
fn targets_track_clears() {
    let mut target = Target::new(512);
    assert!(!target.cleared);
    assert_eq!(target.last_written, None);
    target.clear();
    assert!(target.cleared);
    assert_eq!(target.resolution, 512);
}

#[test]
fn resolution_prefers_the_override_and_never_vanishes() {
    let mut options = Options::default();
    assert_eq!(options.resolution(640, 480), 640);
    assert_eq!(options.resolution(480, 640), 640);
    options.resolution = Some(2048);
    assert_eq!(options.resolution(640, 480), 2048);
    options.resolution = Some(0);
    assert_eq!(options.resolution(0, 0), 1);
}
