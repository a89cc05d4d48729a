//! The frame counter and the two values that each frame shows.

use vstd::prelude::*;
use crate::ratio::{Ratio, lemma_ratio_parts};

verus! {

/// The number of frames in one sweep of the progress bar.
pub const FRAMES_PER_CYCLE: u64 = 100;

/// The number of completed sweeps at frame `index`.
pub open spec fn tens_of(index: nat) -> nat {
    index / (FRAMES_PER_CYCLE as nat)
}

/// The position of frame `index` within its sweep, counted in frames.
pub open spec fn phase_of(index: nat) -> nat {
    index % (FRAMES_PER_CYCLE as nat)
}

/// The progress that frame `index` shows: its position within the sweep over
/// the length of a sweep.
pub open spec fn ratio_of(index: nat) -> Ratio {
    Ratio::of(phase_of(index) as u32, FRAMES_PER_CYCLE as u32)
}

/// Counts the frames that were rendered in full.
#[derive(Clone, Copy, Debug, PartialEq, Eq, Structural)]
pub struct FrameCounter {
    index: u64,
}

impl View for FrameCounter {
    type V = nat;

    closed spec fn view(&self) -> nat {
        self.index as nat
    }
}

impl FrameCounter {
    /// A counter at frame zero.
    pub fn new() -> (counter: Self)
        ensures
            counter@ == 0,
    {
        FrameCounter { index: 0 }
    }

    /// A counter at frame `index`.
    pub fn starting_at(index: u64) -> (counter: Self)
        ensures
            counter@ == index,
    {
        FrameCounter { index }
    }

    /// The number of the current frame.
    pub fn index(&self) -> (index: u64)
        ensures
            index == self@,
    {
        self.index
    }

    /// The number of completed sweeps, which the display shows as text.
    pub fn tens(&self) -> (tens: u64)
        ensures
            tens == tens_of(self@),
    {
        self.index / FRAMES_PER_CYCLE
    }

    /// The progress within the current sweep, which the display shows as
    /// the fill of the bar. It is below one for every frame.
    pub fn ratio(&self) -> (ratio: Ratio)
        ensures
            ratio == ratio_of(self@),
            ratio.wf(),
    {
        Ratio::cyclic(self.index, FRAMES_PER_CYCLE as u32)
    }

    /// Moves on to the next frame.
    pub fn advance(&mut self)
        requires
            old(self)@ < u64::MAX,
        ensures
            final(self)@ == old(self)@ + 1,
    {
        self.index = self.index + 1;
    }
}

/// The progress of a frame is its position within the sweep in hundredths,
/// and lies below one.
pub proof fn lemma_ratio_of(index: nat)
    ensures
        ratio_of(index).wf(),
        ratio_of(index).numer() == phase_of(index),
        ratio_of(index).denom() == FRAMES_PER_CYCLE,
{
    lemma_ratio_parts(phase_of(index) as u32, FRAMES_PER_CYCLE as u32);
}

/// Within a sweep the progress grows strictly from frame to frame while the
/// number of completed sweeps stays; on the last frame of a sweep the next
/// frame starts again at zero and one more sweep is complete.
pub proof fn lemma_next_frame(index: nat)
    ensures
        phase_of(index) < FRAMES_PER_CYCLE - 1 ==> {
            &&& ratio_of(index).lt(ratio_of(index + 1))
            &&& ratio_of(index + 1).numer() == ratio_of(index).numer() + 1
            &&& tens_of(index + 1) == tens_of(index)
        },
        phase_of(index) == FRAMES_PER_CYCLE - 1 ==> {
            &&& ratio_of(index + 1).numer() == 0
            &&& tens_of(index + 1) == tens_of(index) + 1
        },
{
    lemma_ratio_of(index);
    lemma_ratio_of(index + 1);
}

/// The first sweep: frame `index` below one hundred shows `index/100` and no
/// completed sweep, and frame one hundred shows zero progress and one sweep.
pub proof fn lemma_first_cycle(index: nat)
    requires
        index <= FRAMES_PER_CYCLE,
    ensures
        index < FRAMES_PER_CYCLE ==> ratio_of(index).numer() == index && tens_of(index) == 0,
        index == FRAMES_PER_CYCLE ==> ratio_of(index).numer() == 0 && tens_of(index) == 1,
        ratio_of(index).denom() == FRAMES_PER_CYCLE,
{
    lemma_ratio_of(index);
}

} // verus!
