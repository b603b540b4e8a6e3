//! The weighted selector: which candidate a given draw picks.
//!
//! The candidates stand in a fixed order. Laid end to end, their weights
//! cover the numbers from 0 up to the total weight, each candidate a stretch
//! as long as its weight. A draw picks the candidate whose stretch it falls
//! into, so a draw that is uniform below the total picks each candidate with
//! probability weight / total, wherever the candidate stands.

use crate::models::ProductIdent;
use vstd::prelude::*;

verus! {

/// The sum of the weights of `candidates`.
pub open spec fn total_weight(candidates: Seq<ProductIdent>) -> nat
    decreases candidates.len(),
{
    if candidates.len() == 0 {
        0
    } else {
        total_weight(candidates.drop_last()) + candidates.last().total as nat
    }
}

/// The sum of the weights of the first `k` candidates.
pub open spec fn weight_before(candidates: Seq<ProductIdent>, k: int) -> nat {
    total_weight(candidates.take(k))
}

/// The index of the first candidate whose cumulative weight exceeds `draw`,
/// if there is one.
pub open spec fn pick(candidates: Seq<ProductIdent>, draw: nat) -> Option<int>
    decreases candidates.len(),
{
    if candidates.len() == 0 {
        None
    } else {
        match pick(candidates.drop_last(), draw) {
            Some(i) => Some(i),
            None => if draw < total_weight(candidates) {
                Some(candidates.len() - 1)
            } else {
                None
            },
        }
    }
}

/// The total weight grows with the number of candidates taken.
pub proof fn lemma_weight_before_monotonic(candidates: Seq<ProductIdent>, j: int, k: int)
    requires
        0 <= j <= k <= candidates.len(),
    ensures
        weight_before(candidates, j) <= weight_before(candidates, k),
    decreases k - j,
{
    if j < k {
        lemma_weight_before_monotonic(candidates, j, k - 1);
        assert(candidates.take(k).drop_last() =~= candidates.take(k - 1));
    }
}

/// Taking one more candidate adds its weight.
pub proof fn lemma_weight_before_step(candidates: Seq<ProductIdent>, k: int)
    requires
        0 <= k < candidates.len(),
    ensures
        weight_before(candidates, k + 1) == weight_before(candidates, k) + candidates[k].total,
{
    assert(candidates.take(k + 1).drop_last() =~= candidates.take(k));
}

/// Each weight fits 32 bits, so the total is bounded by the number of
/// candidates.
pub proof fn lemma_total_weight_bound(candidates: Seq<ProductIdent>)
    ensures
        total_weight(candidates) <= candidates.len() * 0xFFFF_FFFF,
    decreases candidates.len(),
{
    if candidates.len() > 0 {
        lemma_total_weight_bound(candidates.drop_last());
        assert((candidates.len() - 1) * 0xFFFF_FFFF + 0xFFFF_FFFF == candidates.len()
            * 0xFFFF_FFFF) by (nonlinear_arith);
    }
}

/// What `pick` means: it answers `i` exactly when `draw` falls into the
/// stretch of candidate `i`, and it answers nothing exactly when `draw`
/// reaches the total weight.
pub proof fn lemma_pick_is_stretch(candidates: Seq<ProductIdent>, draw: nat)
    ensures
        match pick(candidates, draw) {
            Some(i) => 0 <= i < candidates.len() && weight_before(candidates, i) <= draw
                < weight_before(candidates, i) + candidates[i].total,
            None => draw >= total_weight(candidates),
        },
    decreases candidates.len(),
{
    if candidates.len() > 0 {
        let rest = candidates.drop_last();
        lemma_pick_is_stretch(rest, draw);
        match pick(rest, draw) {
            Some(i) => {
                assert(rest.take(i) =~= candidates.take(i));
                assert(rest[i] == candidates[i]);
            },
            None => {
                if draw < total_weight(candidates) {
                    assert(candidates.take(candidates.len() - 1) =~= rest);
                }
            },
        }
    }
}

/// The sum of the weights of `candidates`. It always fits 128 bits.
pub fn total_weight_of(candidates: &Vec<ProductIdent>) -> (total: u128)
    ensures
        total == total_weight(candidates@),
{
    let mut total: u128 = 0;
    let mut k: usize = 0;
    while k < candidates.len()
        invariant
            k <= candidates.len(),
            total == weight_before(candidates@, k as int),
        decreases candidates.len() - k,
    {
        proof {
            lemma_weight_before_step(candidates@, k as int);
            lemma_total_weight_bound(candidates@.take(k as int));
            assert(k * 0xFFFF_FFFF <= 0xFFFF_FFFF_FFFF_FFFF * 0xFFFF_FFFF) by (nonlinear_arith)
                requires
                    k <= 0xFFFF_FFFF_FFFF_FFFF,
            ;
        }
        total = total + candidates[k].total as u128;
        k = k + 1;
    }
    proof {
        assert(candidates@.take(k as int) =~= candidates@);
    }
    total
}

/// The index of the candidate that `draw` picks: the first one whose
/// cumulative weight exceeds `draw`. `None` when `draw` reaches the total
/// weight, which is always so when there is no candidate or no weight.
pub fn select_with_draw(candidates: &Vec<ProductIdent>, draw: u128) -> (picked: Option<usize>)
    ensures
        picked matches Some(i) ==> i < candidates.len() && pick(candidates@, draw as nat)
            == Some(i as int),
        picked is None ==> pick(candidates@, draw as nat) is None,
{
    let mut running_total: u128 = 0;
    let mut k: usize = 0;
    while k < candidates.len()
        invariant
            k <= candidates.len(),
            running_total == weight_before(candidates@, k as int),
            pick(candidates@.take(k as int), draw as nat) is None,
        decreases candidates.len() - k,
    {
        proof {
            lemma_weight_before_step(candidates@, k as int);
            lemma_total_weight_bound(candidates@.take(k as int));
            assert(k * 0xFFFF_FFFF <= 0xFFFF_FFFF_FFFF_FFFF * 0xFFFF_FFFF) by (nonlinear_arith)
                requires
                    k <= 0xFFFF_FFFF_FFFF_FFFF,
            ;
            assert(candidates@.take(k + 1).drop_last() =~= candidates@.take(k as int));
        }
        running_total = running_total + candidates[k].total as u128;
        if running_total > draw {
            proof {
                lemma_pick_prefix(candidates@, k + 1, draw as nat);
            }
            return Some(k);
        }
        k = k + 1;
    }
    proof {
        assert(candidates@.take(k as int) =~= candidates@);
    }
    None
}

/// A pick among the first `k` candidates is the pick among all of them.
pub proof fn lemma_pick_prefix(candidates: Seq<ProductIdent>, k: int, draw: nat)
    requires
        0 <= k <= candidates.len(),
        pick(candidates.take(k), draw) is Some,
    ensures
        pick(candidates, draw) == pick(candidates.take(k), draw),
    decreases candidates.len() - k,
{
    if k < candidates.len() {
        assert(candidates.take(k + 1).drop_last() =~= candidates.take(k));
        lemma_pick_prefix(candidates, k + 1, draw);
    } else {
        assert(candidates.take(k) =~= candidates);
    }
}

} // verus!
