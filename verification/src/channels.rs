//! Interleaved stereo frames and their channels.

use vstd::prelude::*;

verus! {

/// The samples at even positions of an interleaved frame `[L0, R0, L1, R1, ...]`.
pub open spec fn left_of<T>(samples: Seq<T>) -> Seq<T> {
    Seq::new(((samples.len() + 1) / 2) as nat, |k: int| samples[2 * k])
}

/// The samples at odd positions of an interleaved frame `[L0, R0, L1, R1, ...]`.
pub open spec fn right_of<T>(samples: Seq<T>) -> Seq<T> {
    Seq::new((samples.len() / 2) as nat, |k: int| samples[2 * k + 1])
}

/// The left (and mono) channel of an interleaved stereo frame: every
/// second sample, starting with the first.
pub fn left_channel<T: Copy>(samples: &[T]) -> (left: Vec<T>)
    ensures
        left@ == left_of(samples@),
{
    let n = samples.len();
    let count = n / 2 + n % 2;
    let mut left: Vec<T> = Vec::new();
    let mut k: usize = 0;
    while k < count
        invariant
            n == samples@.len(),
            count == (n + 1) / 2,
            k <= count,
            left@.len() == k,
            forall|j: int| 0 <= j < k ==> left@[j] == samples@[2 * j],
        decreases count - k,
    {
        left.push(samples[2 * k]);
        k = k + 1;
    }
    assert(left@ =~= left_of(samples@));
    left
}

/// The right channel of an interleaved stereo frame: every second sample,
/// starting with the second.
pub fn right_channel<T: Copy>(samples: &[T]) -> (right: Vec<T>)
    ensures
        right@ == right_of(samples@),
{
    let n = samples.len();
    let count = n / 2;
    let mut right: Vec<T> = Vec::new();
    let mut k: usize = 0;
    while k < count
        invariant
            n == samples@.len(),
            count == n / 2,
            k <= count,
            right@.len() == k,
            forall|j: int| 0 <= j < k ==> right@[j] == samples@[2 * j + 1],
        decreases count - k,
    {
        right.push(samples[2 * k + 1]);
        k = k + 1;
    }
    assert(right@ =~= right_of(samples@));
    right
}

/// Splitting a frame loses and duplicates nothing: the two channels
/// together are as long as the frame, and each sample of the frame is found
/// in the channel its position selects, at half its position.
pub proof fn lemma_channels_partition_frame<T>(samples: Seq<T>)
    ensures
        left_of(samples).len() + right_of(samples).len() == samples.len(),
        forall|p: int|
            0 <= p < samples.len() ==> #[trigger] samples[p] == if p % 2 == 0 {
                left_of(samples)[p / 2]
            } else {
                right_of(samples)[p / 2]
            },
{
    assert forall|p: int| 0 <= p < samples.len() implies #[trigger] samples[p] == if p % 2 == 0 {
        left_of(samples)[p / 2]
    } else {
        right_of(samples)[p / 2]
    } by {
        if p % 2 == 0 {
            assert(2 * (p / 2) == p);
        } else {
            assert(2 * (p / 2) + 1 == p);
        }
    }
}

/// The left channel holds the samples at even positions in order, the
/// right channel those at odd positions; an odd-length frame gives the
/// left channel one sample more.
pub proof fn lemma_channel_contents<T>(samples: Seq<T>)
    ensures
        left_of(samples).len() == (samples.len() + 1) / 2,
        right_of(samples).len() == samples.len() / 2,
        forall|k: int| 0 <= k < left_of(samples).len() ==> #[trigger] left_of(samples)[k] == samples[2 * k],
        forall|k: int| 0 <= k < right_of(samples).len() ==> #[trigger] right_of(samples)[k] == samples[2 * k + 1],
{
}

} // verus!
