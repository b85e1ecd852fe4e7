//! Selecting the applicable tier for one cart line.
//!
//! A tier is a candidate for a line exactly when the line's quantity has
//! reached the tier's threshold. Among the candidates the one with the largest
//! threshold wins — the highest quantity break the customer has reached — and
//! the selection key is strictly the threshold, never the discount value. Two
//! candidates sharing the maximal threshold are resolved in favour of the one
//! encountered first, so selection is deterministic but order-dependent on the
//! input sequence.

use vstd::prelude::*;

use crate::tiers::{Tier, TierSpec, tiers_view};

verus! {

/// The tier the fold selects: a left fold over the tiers, keeping a running
/// best and replacing it only when a candidate's threshold is strictly larger.
pub open spec fn spec_best_tier(quantity: int, tiers: Seq<TierSpec>) -> Option<TierSpec>
    decreases tiers.len(),
{
    if tiers.len() == 0 {
        None
    } else {
        let prev = spec_best_tier(quantity, tiers.drop_last());
        let t = tiers.last();
        if quantity >= t.threshold {
            match prev {
                Some(b) => if t.threshold > b.threshold {
                    Some(t)
                } else {
                    Some(b)
                },
                None => Some(t),
            }
        } else {
            prev
        }
    }
}

/// Select the applicable tier for a line's quantity: the candidate with the
/// largest threshold, the first one encountered on a tie, and nothing when no
/// tier's threshold has been reached.
pub fn resolve(quantity: i64, tiers: &Vec<Tier>) -> (r: Option<Tier>)
    ensures
        match r {
            Some(t) => spec_best_tier(quantity as int, tiers_view(tiers@)) == Some(t@),
            None => spec_best_tier(quantity as int, tiers_view(tiers@)) is None,
        },
{
    let mut best: Option<Tier> = None;
    let mut i: usize = 0;
    while i < tiers.len()
        invariant
            0 <= i <= tiers@.len(),
            match best {
                Some(b) => spec_best_tier(quantity as int, tiers_view(tiers@).take(i as int))
                    == Some(b@),
                None => spec_best_tier(quantity as int, tiers_view(tiers@).take(i as int)) is None,
            },
        decreases tiers@.len() - i,
    {
        proof {
            assert(tiers_view(tiers@).take(i + 1).drop_last() =~= tiers_view(tiers@).take(
                i as int,
            ));
            assert(tiers_view(tiers@).take(i + 1).last() == tiers@[i as int]@);
        }
        if quantity >= tiers[i].threshold {
            let replace = match &best {
                Some(b) => tiers[i].threshold > b.threshold,
                None => true,
            };
            if replace {
                best = Some(tiers[i].duplicate());
            }
        }
        i += 1;
    }
    proof {
        assert(tiers_view(tiers@).take(tiers@.len() as int) =~= tiers_view(tiers@));
    }
    best
}

/// Threshold monotonicity of selection: whenever a tier is selected, no
/// eligible tier's threshold exceeds the selected one's, and the selected tier
/// is itself eligible and drawn from the schedule.
pub proof fn lemma_threshold_monotonic(quantity: int, tiers: Seq<TierSpec>)
    requires
        spec_best_tier(quantity, tiers) matches Some(b),
    ensures
        quantity >= spec_best_tier(quantity, tiers)->0.threshold,
        tiers.contains(spec_best_tier(quantity, tiers)->0),
        forall|i: int|
            0 <= i < tiers.len() && quantity >= #[trigger] tiers[i].threshold ==> tiers[i].threshold
                <= spec_best_tier(quantity, tiers)->0.threshold,
    decreases tiers.len(),
{
    if tiers.len() > 0 {
        let prefix = tiers.drop_last();
        if spec_best_tier(quantity, prefix) is Some {
            lemma_threshold_monotonic(quantity, prefix);
        } else {
            lemma_no_candidate(quantity, prefix);
        }
        assert forall|i: int|
            0 <= i < tiers.len() && quantity >= #[trigger] tiers[i].threshold implies tiers[i].threshold
            <= spec_best_tier(quantity, tiers)->0.threshold by {
            if i < tiers.len() - 1 {
                assert(tiers[i] == prefix[i]);
            }
        }
        if spec_best_tier(quantity, tiers) == spec_best_tier(quantity, prefix) {
            assert(prefix.contains(spec_best_tier(quantity, tiers)->0));
            let w = choose|k: int|
                0 <= k < prefix.len() && prefix[k] == spec_best_tier(quantity, tiers)->0;
            assert(tiers[w] == spec_best_tier(quantity, tiers)->0);
        } else {
            assert(tiers[tiers.len() - 1] == spec_best_tier(quantity, tiers)->0);
        }
    }
}

/// No-candidate case: when the quantity is below every tier's threshold,
/// nothing is selected; and as soon as one tier's threshold is reached,
/// something is.
pub proof fn lemma_no_candidate(quantity: int, tiers: Seq<TierSpec>)
    ensures
        (spec_best_tier(quantity, tiers) is Some) <==> (exists|i: int|
            0 <= i < tiers.len() && quantity >= #[trigger] tiers[i].threshold),
    decreases tiers.len(),
{
    if tiers.len() > 0 {
        let prefix = tiers.drop_last();
        lemma_no_candidate(quantity, prefix);
        if exists|i: int| 0 <= i < prefix.len() && quantity >= #[trigger] prefix[i].threshold {
            let w = choose|i: int|
                0 <= i < prefix.len() && quantity >= #[trigger] prefix[i].threshold;
            assert(tiers[w] == prefix[w]);
        }
        if spec_best_tier(quantity, tiers) is Some {
            if quantity < tiers.last().threshold {
                assert(spec_best_tier(quantity, prefix) is Some);
            }
        } else {
            assert forall|i: int|
                0 <= i < tiers.len() implies quantity < #[trigger] tiers[i].threshold by {
                if i < tiers.len() - 1 {
                    assert(tiers[i] == prefix[i]);
                }
            }
        }
    }
}

/// First-seen tie-break: the selected tier stands at some position of the
/// schedule before which every eligible tier's threshold is strictly smaller —
/// of several candidates sharing the maximal threshold, the first one
/// encountered wins.
pub proof fn lemma_first_seen_tie_break(quantity: int, tiers: Seq<TierSpec>)
    requires
        spec_best_tier(quantity, tiers) matches Some(b),
    ensures
        exists|i: int|
            {
                &&& 0 <= i < tiers.len()
                &&& #[trigger] tiers[i] == spec_best_tier(quantity, tiers)->0
                &&& quantity >= tiers[i].threshold
                &&& forall|j: int|
                    0 <= j < i && quantity >= #[trigger] tiers[j].threshold ==> tiers[j].threshold
                        < tiers[i].threshold
            },
    decreases tiers.len(),
{
    let b = spec_best_tier(quantity, tiers)->0;
    let prefix = tiers.drop_last();
    if spec_best_tier(quantity, tiers) == spec_best_tier(quantity, prefix) {
        lemma_first_seen_tie_break(quantity, prefix);
        let i = choose|i: int|
            {
                &&& 0 <= i < prefix.len()
                &&& #[trigger] prefix[i] == spec_best_tier(quantity, prefix)->0
                &&& quantity >= prefix[i].threshold
                &&& forall|j: int|
                    0 <= j < i && quantity >= #[trigger] prefix[j].threshold ==> prefix[j].threshold
                        < prefix[i].threshold
            };
        assert(tiers[i] == prefix[i]);
        assert forall|j: int|
            0 <= j < i && quantity >= #[trigger] tiers[j].threshold implies tiers[j].threshold
            < tiers[i].threshold by {
            assert(tiers[j] == prefix[j]);
        }
    } else {
        // The last tier replaced the running best: it is eligible and its
        // threshold strictly exceeds every eligible threshold of the prefix.
        let i = tiers.len() - 1;
        assert(tiers[i] == b);
        if spec_best_tier(quantity, prefix) is Some {
            lemma_threshold_monotonic(quantity, prefix);
        } else {
            lemma_no_candidate(quantity, prefix);
        }
        assert forall|j: int|
            0 <= j < i && quantity >= #[trigger] tiers[j].threshold implies tiers[j].threshold
            < tiers[i].threshold by {
            assert(prefix[j] == tiers[j]);
        }
    }
}

} // verus!
