//! The frame ledger behind a recording.
//!
//! While recording, each rendered frame is captured and written out by the
//! embedding; what the recorder itself owns is the ledger of capture times
//! and the per-frame display durations derived from it, which the embedding
//! turns into an edit list for the encoder.

use vstd::prelude::*;

verus! {

/// Capture times of the frames recorded so far, in microseconds, in arrival
/// order.
#[derive(Debug)]
pub struct Recorder {
    times: Vec<u64>,
}

/// How long frame `i` is displayed: until the next frame's capture time, and
/// never negatively even if the clock stepped backwards. The final frame has
/// no successor and no duration.
pub open spec fn spec_duration(times: Seq<u64>, i: int) -> Option<u64> {
    if i + 1 < times.len() {
        if times[i + 1] >= times[i] {
            Some((times[i + 1] - times[i]) as u64)
        } else {
            Some(0u64)
        }
    } else {
        None
    }
}

impl Recorder {
    pub closed spec fn spec_times(self) -> Seq<u64> {
        self.times@
    }

    pub fn new() -> (r: Recorder)
        ensures
            r.spec_times().len() == 0,
    {
        Recorder { times: Vec::new() }
    }

    /// Record that a frame was captured at `time`.
    pub fn frame(&mut self, time: u64)
        requires
            old(self).spec_times().len() < usize::MAX,
        ensures
            final(self).spec_times() == old(self).spec_times().push(time),
    {
        self.times.push(time);
    }

    /// How many frames have been recorded.
    pub fn frames(&self) -> (r: usize)
        ensures
            r == self.spec_times().len(),
    {
        self.times.len()
    }

    /// The edit list: each frame's index paired with how long it is shown.
    pub fn schedule(&self) -> (r: Vec<(usize, Option<u64>)>)
        ensures
            r.len() == self.spec_times().len(),
            forall|i: int|
                0 <= i < r.len() ==> #[trigger] r@[i] == (
                i as usize,
                spec_duration(self.spec_times(), i),
            ),
    {
        let mut r: Vec<(usize, Option<u64>)> = Vec::new();
        let mut i: usize = 0;
        while i < self.times.len()
            invariant
                i <= self.times.len(),
                r.len() == i,
                forall|j: int|
                    0 <= j < i ==> #[trigger] r@[j] == (
                    j as usize,
                    spec_duration(self.times@, j),
                ),
            decreases self.times.len() - i,
        {
            let duration: Option<u64> = if i + 1 < self.times.len() {
                let cur = self.times[i];
                let next = self.times[i + 1];
                if next >= cur {
                    Some(next - cur)
                } else {
                    Some(0)
                }
            } else {
                None
            };
            r.push((i, duration));
            i += 1;
        }
        r
    }
}

} // verus!
