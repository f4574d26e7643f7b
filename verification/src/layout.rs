//! The split sizing rule: how much of the stacking axis each child of a
//! split receives.
//!
//! A `Fit` child keeps its natural size. The space left over after all
//! `Fit` children — never less than nothing — is distributed over the
//! `Expand` children, each receiving the whole-unit part of
//! `remaining * weight / (sum of all expand weights)`. A weight of one in a
//! split whose weights are all one is an equal share, so a bare "expand"
//! behaves like weight one. Cross-axis sizing is not decided here: it is
//! always "fill available".

use vstd::prelude::*;

use vstd::arithmetic::div_mod::{lemma_div_by_multiple, lemma_div_is_ordered};

use crate::element::SplitMeasurement;

verus! {

/// The natural sizes of the `Fit` children, summed.
pub open spec fn fit_total(s: Seq<(SplitMeasurement, u64)>) -> int
    decreases s.len(),
{
    if s.len() == 0 {
        0
    } else {
        fit_total(s.drop_last()) + (if s.last().0 is Fit {
            s.last().1 as int
        } else {
            0int
        })
    }
}

/// The weights of the `Expand` children, summed.
pub open spec fn weight_total(s: Seq<(SplitMeasurement, u64)>) -> int
    decreases s.len(),
{
    if s.len() == 0 {
        0
    } else {
        weight_total(s.drop_last()) + (match s.last().0 {
            SplitMeasurement::Expand { weight } => weight as int,
            SplitMeasurement::Fit => 0int,
        })
    }
}

/// The stacking-axis space left for the `Expand` children once every `Fit`
/// child has kept its natural size; never below zero.
pub open spec fn remaining_space(axis: u64, s: Seq<(SplitMeasurement, u64)>) -> int {
    if fit_total(s) >= axis {
        0
    } else {
        axis - fit_total(s)
    }
}

/// The size one child receives: its natural size when it is `Fit`, else the
/// whole-unit part of its proportional share of the remaining space.
pub open spec fn child_share(
    m: SplitMeasurement,
    natural: u64,
    remaining: int,
    wtotal: int,
) -> int {
    match m {
        SplitMeasurement::Fit => natural as int,
        SplitMeasurement::Expand { weight } => remaining * weight / wtotal,
    }
}

/// Every `Expand` weight is positive, as the sizing rule presumes.
pub open spec fn weights_positive(s: Seq<(SplitMeasurement, u64)>) -> bool {
    forall|i: int|
        0 <= i < s.len() ==> ((#[trigger] s[i]).0 is Expand ==> s[i].0->weight >= 1)
}

/// Weight sums never go below zero.
proof fn lemma_weight_total_nonneg(s: Seq<(SplitMeasurement, u64)>)
    ensures
        weight_total(s) >= 0,
    decreases s.len(),
{
    if s.len() > 0 {
        lemma_weight_total_nonneg(s.drop_last());
    }
}

/// An `Expand` child's weight is part of the weight sum, so the sum is at
/// least that weight.
proof fn lemma_weight_total_lower(s: Seq<(SplitMeasurement, u64)>, i: int)
    requires
        0 <= i < s.len(),
    ensures
        s[i].0 is Expand ==> weight_total(s) >= s[i].0->weight,
    decreases s.len(),
{
    lemma_weight_total_nonneg(s.drop_last());
    if i < s.len() - 1 {
        lemma_weight_total_lower(s.drop_last(), i);
        assert(s.drop_last()[i] == s[i]);
    }
}

/// The sizes of all children of a split along its stacking axis, given each
/// child's policy and natural size and the axis extent. Exactly the sizing
/// rule: `Fit` children keep their natural size, `Expand` children divide
/// the remaining space in proportion to their weights.
pub fn split_axis_sizes(children: &Vec<(SplitMeasurement, u64)>, axis: u64) -> (r: Vec<u64>)
    requires
        weights_positive(children@),
    ensures
        r@.len() == children@.len(),
        forall|i: int|
            0 <= i < children@.len() ==> #[trigger] r@[i] as int == child_share(
                children@[i].0,
                children@[i].1,
                remaining_space(axis, children@),
                weight_total(children@),
            ),
{
    let n = children.len();
    let mut remaining: u64 = axis;
    let mut wtotal: u128 = 0;
    let mut i: usize = 0;
    while i < n
        invariant
            n == children@.len(),
            i <= n,
            remaining as int == remaining_space(axis, children@.take(i as int)),
            wtotal as int == weight_total(children@.take(i as int)),
            wtotal <= 255 * (i as int),
        decreases n - i,
    {
        let (m, natural) = children[i];
        proof {
            assert(children@.take(i + 1 as int).drop_last() =~= children@.take(i as int));
            assert(children@.take(i + 1 as int).last() == children@[i as int]);
        }
        match m {
            SplitMeasurement::Fit => {
                if natural >= remaining {
                    remaining = 0;
                } else {
                    remaining = remaining - natural;
                }
            },
            SplitMeasurement::Expand { weight } => {
                wtotal = wtotal + weight as u128;
            },
        }
        i = i + 1;
    }
    proof {
        assert(children@.take(n as int) =~= children@);
    }
    let ghost rem_spec = remaining_space(axis, children@);
    let ghost wtotal_spec = weight_total(children@);
    let mut out: Vec<u64> = Vec::new();
    let mut i: usize = 0;
    while i < n
        invariant
            n == children@.len(),
            i <= n,
            remaining as int == rem_spec,
            wtotal as int == wtotal_spec,
            rem_spec == remaining_space(axis, children@),
            wtotal_spec == weight_total(children@),
            weights_positive(children@),
            out@.len() == i,
            forall|j: int|
                0 <= j < i ==> #[trigger] out@[j] as int == child_share(
                    children@[j].0,
                    children@[j].1,
                    rem_spec,
                    wtotal_spec,
                ),
        decreases n - i,
    {
        let (m, natural) = children[i];
        match m {
            SplitMeasurement::Fit => {
                out.push(natural);
            },
            SplitMeasurement::Expand { weight } => {
                proof {
                    assert(children@[i as int].0 is Expand);
                    assert(children@[i as int].0->weight == weight);
                    lemma_weight_total_lower(children@, i as int);
                    assert(weight >= 1);
                    assert(wtotal_spec >= weight);
                    assert((remaining as int) * (weight as int) <= (u64::MAX as int) * 255)
                        by (nonlinear_arith)
                        requires
                            0 <= remaining as int <= u64::MAX as int,
                            0 <= weight as int <= 255,
                    ;
                }
                let share_wide: u128 = (remaining as u128) * (weight as u128) / wtotal;
                proof {
                    let rem = remaining as int;
                    let w = weight as int;
                    let wt = wtotal as int;
                    assert(rem * w <= rem * wt) by (nonlinear_arith)
                        requires
                            0 <= rem,
                            0 <= w <= wt,
                    ;
                    lemma_div_is_ordered(rem * w, rem * wt, wt);
                    lemma_div_by_multiple(rem, wt);
                    assert(rem * w / wt <= rem);
                }
                out.push(share_wide as u64);
            },
        }
        i = i + 1;
    }
    out
}

/// A `Fit` child's size never depends on its siblings' expand weights: in
/// two splits that agree on which children are `Fit` and on those
/// children's natural sizes, a `Fit` child is sized identically — its
/// natural size — whatever the expand weights are. Only `Expand` children
/// redistribute the remaining space.
pub proof fn lemma_fit_blind_to_weights(
    s1: Seq<(SplitMeasurement, u64)>,
    s2: Seq<(SplitMeasurement, u64)>,
    axis: u64,
    i: int,
)
    requires
        s1.len() == s2.len(),
        forall|j: int| 0 <= j < s1.len() ==> ((#[trigger] s1[j].0 is Fit <==> #[trigger] s2[j].0
            is Fit) && (s1[j].0 is Fit ==> s1[j] == s2[j])),
        0 <= i < s1.len(),
        s1[i].0 is Fit,
    ensures
        child_share(s1[i].0, s1[i].1, remaining_space(axis, s1), weight_total(s1)) == s1[i].1,
        child_share(s2[i].0, s2[i].1, remaining_space(axis, s2), weight_total(s2)) == s1[i].1,
{
    assert(s2[i] == s1[i]);
}

} // verus!
