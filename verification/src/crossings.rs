//! Sign changes between neighbouring samples: the count behind the
//! zero-crossing rate and the zero-crossing frequency estimate.

use vstd::prelude::*;

verus! {

/// Whether the sign of the sample at `i` differs from that of the sample
/// before it, each sample given by whether it is non-negative.
pub open spec fn changes_at(nonneg: Seq<bool>, i: int) -> bool {
    nonneg[i] != nonneg[i - 1]
}

/// The number of positions `1 <= i < n` of the first `n` samples at which
/// the sign changes.
pub open spec fn sign_changes_upto(nonneg: Seq<bool>, n: int) -> nat
    decreases n,
{
    if n <= 1 {
        0
    } else {
        sign_changes_upto(nonneg, n - 1) + if changes_at(nonneg, n - 1) {
            1nat
        } else {
            0nat
        }
    }
}

/// The number of sign changes between neighbouring samples.
pub open spec fn sign_changes(nonneg: Seq<bool>) -> nat {
    sign_changes_upto(nonneg, nonneg.len() as int)
}

proof fn lemma_sign_changes_upto_bound(nonneg: Seq<bool>, n: int)
    requires
        n >= 1,
    ensures
        sign_changes_upto(nonneg, n) <= n - 1,
    decreases n,
{
    if n > 1 {
        lemma_sign_changes_upto_bound(nonneg, n - 1);
    }
}

/// Counts the sign changes between neighbouring samples, each sample given
/// by whether it is non-negative (`sample >= 0.0`).
pub fn count_sign_changes(nonneg: &[bool]) -> (crossings: u32)
    requires
        nonneg@.len() <= 0x1_0000_0000,
    ensures
        crossings == sign_changes(nonneg@),
        nonneg@.len() >= 1 ==> crossings <= nonneg@.len() - 1,
{
    let n = nonneg.len();
    if n < 2 {
        return 0;
    }
    let mut crossings: u32 = 0;
    let mut i: usize = 1;
    while i < n
        invariant
            n == nonneg@.len(),
            n <= 0x1_0000_0000,
            1 <= i <= n,
            crossings == sign_changes_upto(nonneg@, i as int),
        decreases n - i,
    {
        proof {
            lemma_sign_changes_upto_bound(nonneg@, i as int);
        }
        if nonneg[i] != nonneg[i - 1] {
            crossings = crossings + 1;
        }
        i = i + 1;
    }
    proof {
        lemma_sign_changes_upto_bound(nonneg@, n as int);
    }
    crossings
}

/// A frame whose samples all have one sign, silence among them, has no
/// sign changes.
pub proof fn lemma_constant_sign_has_no_changes(nonneg: Seq<bool>)
    requires
        forall|i: int, j: int| 0 <= i < nonneg.len() && 0 <= j < nonneg.len() ==> nonneg[i] == nonneg[j],
    ensures
        sign_changes(nonneg) == 0,
{
    assert forall|n: int| 0 <= n <= nonneg.len() implies sign_changes_upto(nonneg, n) == 0 by {
        lemma_constant_prefix(nonneg, n);
    }
}

proof fn lemma_constant_prefix(nonneg: Seq<bool>, n: int)
    requires
        0 <= n <= nonneg.len(),
        forall|i: int, j: int| 0 <= i < nonneg.len() && 0 <= j < nonneg.len() ==> nonneg[i] == nonneg[j],
    ensures
        sign_changes_upto(nonneg, n) == 0,
    decreases n,
{
    if n > 1 {
        lemma_constant_prefix(nonneg, n - 1);
        assert(nonneg[n - 1] == nonneg[n - 2]);
    }
}

proof fn lemma_prefix_unchanged_by_push(nonneg: Seq<bool>, b: bool, n: int)
    requires
        n <= nonneg.len(),
    ensures
        sign_changes_upto(nonneg.push(b), n) == sign_changes_upto(nonneg, n),
    decreases n,
{
    if n > 1 {
        lemma_prefix_unchanged_by_push(nonneg, b, n - 1);
        assert(nonneg.push(b)[n - 1] == nonneg[n - 1]);
        assert(nonneg.push(b)[n - 2] == nonneg[n - 2]);
    }
}

/// A frame of at most one sample has no sign changes, and a sample added
/// at the end adds one sign change exactly when its sign differs from that
/// of the sample before it.
pub proof fn lemma_sign_changes_extend(nonneg: Seq<bool>, b: bool)
    ensures
        nonneg.len() <= 1 ==> sign_changes(nonneg) == 0,
        nonneg.len() >= 1 ==> sign_changes(nonneg.push(b)) == sign_changes(nonneg) + if b
            != nonneg.last() {
            1nat
        } else {
            0nat
        },
{
    if nonneg.len() >= 1 {
        lemma_prefix_unchanged_by_push(nonneg, b, nonneg.len() as int);
        assert(nonneg.push(b)[nonneg.len() as int] == b);
        assert(nonneg.push(b)[nonneg.len() - 1] == nonneg.last());
    }
}

/// When every sample's sign differs from the one before it, each of the
/// n - 1 neighbouring pairs is a sign change.
pub proof fn lemma_alternating_signs_change_everywhere(nonneg: Seq<bool>)
    requires
        nonneg.len() >= 1,
        forall|i: int| 1 <= i < nonneg.len() ==> #[trigger] nonneg[i] != nonneg[i - 1],
    ensures
        sign_changes(nonneg) == nonneg.len() - 1,
{
    assert forall|n: int| 1 <= n <= nonneg.len() implies sign_changes_upto(nonneg, n) == n - 1 by {
        lemma_alternating_prefix(nonneg, n);
    }
}

proof fn lemma_alternating_prefix(nonneg: Seq<bool>, n: int)
    requires
        1 <= n <= nonneg.len(),
        forall|i: int| 1 <= i < nonneg.len() ==> #[trigger] nonneg[i] != nonneg[i - 1],
    ensures
        sign_changes_upto(nonneg, n) == n - 1,
    decreases n,
{
    if n > 1 {
        lemma_alternating_prefix(nonneg, n - 1);
        assert(nonneg[n - 1] != nonneg[n - 2]);
    }
}

} // verus!
