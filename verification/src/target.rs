//! Models of the GPU objects the compositor drives.
//!
//! The compositor's decisions — which target each pass reads and writes, which
//! viewport it covers, which parameter record it is bound to — are computed
//! and checked here; the embedding binds them to real GPU objects and replays
//! them. Each model records exactly the state those decisions depend on.

use vstd::prelude::*;

verus! {

/// A sub-rectangle of a render target, in pixels.
#[derive(Clone, Copy, Debug, PartialEq, Eq, Structural)]
pub struct Viewport {
    pub x: u32,
    pub y: u32,
    pub width: u32,
    pub height: u32,
}

/// One render pass being recorded: the viewport restriction applied to it, if
/// any.
#[derive(Clone, Copy, Debug, PartialEq, Eq, Structural)]
pub struct RenderPass {
    pub viewport: Option<Viewport>,
}

impl RenderPass {
    /// A freshly begun pass, covering the whole target.
    pub fn begin() -> (r: RenderPass)
        ensures
            r.viewport is None,
    {
        RenderPass { viewport: None }
    }
}

/// One off-screen render target of the ping-pong pair: its edge length in
/// pixels, whether it has been cleared this frame, and which filter pass (by
/// index) last wrote it.
#[derive(Clone, Copy, Debug, PartialEq, Eq, Structural)]
pub struct Target {
    pub resolution: u32,
    pub cleared: bool,
    pub last_written: Option<u32>,
}

impl Target {
    /// A newly created target: square with the given edge length, not yet
    /// cleared, never written.
    pub fn new(resolution: u32) -> (r: Target)
        ensures
            r.resolution == resolution,
            !r.cleared,
            r.last_written is None,
    {
        Target { resolution, cleared: false, last_written: None }
    }

    /// Mark the target cleared; downstream passes load rather than clear, so
    /// this must happen once per frame before any filter pass writes.
    pub fn clear(&mut self)
        ensures
            final(self).resolution == old(self).resolution,
            final(self).cleared,
            final(self).last_written == old(self).last_written,
    {
        self.cleared = true;
    }
}

} // verus!
