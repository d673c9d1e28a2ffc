//! Frames collected for the ambient baseline.

use vstd::prelude::*;
use crate::channels::{left_of, left_channel};

verus! {

/// The left (mono) samples of each frame in turn, concatenated.
pub open spec fn accumulated_left<T>(frames: Seq<Seq<T>>) -> Seq<T>
    decreases frames.len(),
{
    if frames.len() == 0 {
        Seq::empty()
    } else {
        accumulated_left(frames.drop_last()) + left_of(frames.last())
    }
}

/// The interleaved stereo frames collected for the ambient baseline, in the
/// order in which they came.
pub struct BaselineFrames<T> {
    frames: Vec<Vec<T>>,
}

impl<T> View for BaselineFrames<T> {
    type V = Seq<Seq<T>>;

    closed spec fn view(&self) -> Seq<Seq<T>> {
        self.frames@.map_values(|f: Vec<T>| f@)
    }
}

impl<T: Copy> BaselineFrames<T> {
    /// No frames yet.
    pub fn new() -> (baseline: Self)
        ensures
            baseline@ == Seq::<Seq<T>>::empty(),
    {
        let baseline = BaselineFrames { frames: Vec::new() };
        assert(baseline@ =~= Seq::<Seq<T>>::empty());
        baseline
    }

    /// The number of frames collected.
    pub fn len(&self) -> (n: usize)
        ensures
            n == self@.len(),
    {
        self.frames.len()
    }

    /// Adds a copy of a frame after those collected so far.
    pub fn push_frame(&mut self, frame: &[T])
        ensures
            final(self)@ == old(self)@.push(frame@),
    {
        let copy = vstd::slice::slice_to_vec(frame);
        self.frames.push(copy);
        assert(self@ =~= old(self)@.push(frame@));
    }

    /// The left (mono) samples of all frames collected, frame by frame.
    pub fn left_samples(&self) -> (samples: Vec<T>)
        ensures
            samples@ == accumulated_left(self@),
    {
        let mut samples: Vec<T> = Vec::new();
        let mut i: usize = 0;
        while i < self.frames.len()
            invariant
                i <= self.frames@.len(),
                samples@ == accumulated_left(self@.take(i as int)),
            decreases self.frames@.len() - i,
        {
            let mut left = left_channel(self.frames[i].as_slice());
            samples.append(&mut left);
            proof {
                assert(self@.take(i + 1).drop_last() =~= self@.take(i as int));
                assert(self@.take(i + 1).last() == self.frames@[i as int]@);
            }
            i = i + 1;
        }
        assert(self@.take(self@.len() as int) =~= self@);
        samples
    }
}

/// Adding a frame extends the accumulated samples by that frame's left
/// channel and leaves those before it as they were.
pub proof fn lemma_push_extends_accumulated<T>(frames: Seq<Seq<T>>, frame: Seq<T>)
    ensures
        accumulated_left(Seq::<Seq<T>>::empty()) == Seq::<T>::empty(),
        accumulated_left(frames.push(frame)) == accumulated_left(frames) + left_of(frame),
{
    assert(frames.push(frame).drop_last() =~= frames);
}

} // verus!
