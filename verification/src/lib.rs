//! Core of an audio-reactive visual display.
//!
//! An audio stream is reduced each frame to a magnitude spectrum and a
//! smoothed loudness, and an ordered chain of visual filters is rendered
//! through a ping-ponged pair of off-screen targets into the final image.
//! This crate holds the decisions of that pipeline — sample retention, bin
//! selection, grid geometry, pass ordering, parameter-record packing, and
//! capture repacking — stated in contracts and verified; the embedding binds
//! them to the audio device, the window and the GPU. Values that denote
//! floating-point quantities are carried as their IEEE 754 single-precision
//! bit patterns and never computed on here.

use vstd::prelude::*;

pub mod analyzer;
pub mod boolean;
pub mod field;
pub mod filter;
pub mod format;
pub mod image;
pub mod into_usize;
pub mod matrix;
pub mod message;
pub mod options;
pub mod parameter;
pub mod program;
pub mod recorder;
pub mod renderer;
pub mod shared;
pub mod state;
pub mod target;
pub mod tiling;
pub mod uniforms;

pub use shared::pad;

verus! {

/// The default value of whatever type the context asks for.
pub fn default<T: Default>() -> T {
    T::default()
}

} // verus!
