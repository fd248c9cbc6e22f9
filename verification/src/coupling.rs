//! The coupling topology of a coupled tensor-train evolver and the walls it
//! is checked against before the engine is built.
//!
//! The coupling strengths are floating-point; the caller reports which of
//! them are finite and which pair blocks have a positive determinant, and
//! keeps the values themselves.

use vstd::prelude::*;
use crate::status::SemiflowStatus;

verus! {

/// The axes a coupled evolver couples.
#[derive(Debug)]
pub enum CouplingPlan {
    /// No coupling (tag 0).
    Uncoupled,
    /// Every pair of neighbouring axes, one shared strength (tag 1).
    Tridiagonal,
    /// The listed axis pairs, one strength each (tag 2).
    Pairs(Vec<(usize, usize)>),
}

/// Why pair `i` of a pair list is rejected, if it is: a non-finite strength
/// first, then an axis index out of range.
pub open spec fn spec_pair_failure(jk: Seq<usize>, rho_finite: Seq<bool>, i: int, n_axes: int) -> Option<
    SemiflowStatus,
> {
    if !rho_finite[i] {
        Some(SemiflowStatus::NanInf)
    } else if jk[2 * i] >= n_axes || jk[2 * i + 1] >= n_axes {
        Some(SemiflowStatus::GridMismatch)
    } else {
        None
    }
}

/// Pair `i` is rejected exactly when its strength is non-finite
/// (`NanInf`) or, with a finite strength, when either of its axis indices
/// is not below the number of axes (`GridMismatch`).
pub proof fn lemma_pair_failure(jk: Seq<usize>, rho_finite: Seq<bool>, n_axes: int)
    ensures
        forall|i: int|
            #![trigger spec_pair_failure(jk, rho_finite, i, n_axes)]
            {
                &&& !rho_finite[i] ==> spec_pair_failure(jk, rho_finite, i, n_axes) == Some(SemiflowStatus::NanInf)
                &&& rho_finite[i] && (jk[2 * i] >= n_axes || jk[2 * i + 1] >= n_axes) ==> spec_pair_failure(
                    jk,
                    rho_finite,
                    i,
                    n_axes,
                ) == Some(SemiflowStatus::GridMismatch)
                &&& rho_finite[i] && jk[2 * i] < n_axes && jk[2 * i + 1] < n_axes ==> spec_pair_failure(
                    jk,
                    rho_finite,
                    i,
                    n_axes,
                ) is None
            },
{
}

/// Decodes `n_pairs` axis pairs stored flat as `[j0, k0, j1, k1, ...]`.
///
/// The first rejected pair decides the error.
pub fn decode_pairs(jk: &[usize], rho_finite: &[bool], n_pairs: usize, n_axes: usize) -> (r: Result<
    Vec<(usize, usize)>,
    SemiflowStatus,
>)
    requires
        2 * n_pairs <= jk@.len(),
        n_pairs <= rho_finite@.len(),
    ensures
        match r {
            Ok(p) => {
                &&& p@.len() == n_pairs
                &&& forall|i: int| 0 <= i < n_pairs ==> #[trigger] p@[i] == (jk@[2 * i], jk@[2 * i + 1])
                &&& forall|i: int|
                    0 <= i < n_pairs ==> #[trigger] spec_pair_failure(jk@, rho_finite@, i, n_axes as int)
                        is None
                &&& forall|i: int|
                    0 <= i < n_pairs ==> (#[trigger] p@[i]).0 < n_axes && p@[i].1 < n_axes && rho_finite@[i]
            },
            Err(s) => exists|i: int|
                0 <= i < n_pairs && spec_pair_failure(jk@, rho_finite@, i, n_axes as int) == Some(s)
                    && forall|j: int|
                    0 <= j < i ==> #[trigger] spec_pair_failure(jk@, rho_finite@, j, n_axes as int)
                        is None,
        },
        (exists|i: int|
            0 <= i < n_pairs && (!rho_finite@[i] || #[trigger] jk@[2 * i] >= n_axes || jk@[2 * i + 1] >= n_axes))
            ==> r is Err,
        r matches Err(s) ==> s == SemiflowStatus::NanInf || s == SemiflowStatus::GridMismatch,
{
    proof {
        lemma_pair_failure(jk@, rho_finite@, n_axes as int);
    }
    let mut pairs: Vec<(usize, usize)> = Vec::new();
    let jl = jk.len();
    let mut i: usize = 0;
    while i < n_pairs
        invariant
            jl == jk@.len(),
            2 * n_pairs <= jk@.len(),
            n_pairs <= rho_finite@.len(),
            i <= n_pairs,
            pairs@.len() == i,
            forall|m: int| 0 <= m < i ==> #[trigger] pairs@[m] == (jk@[2 * m], jk@[2 * m + 1]),
            forall|m: int|
                0 <= m < i ==> #[trigger] spec_pair_failure(jk@, rho_finite@, m, n_axes as int) is None,
            forall|m: int| 0 <= m < i ==> #[trigger] rho_finite@[m],
            forall|m: int| 0 <= m < i ==> #[trigger] jk@[2 * m] < n_axes,
            forall|m: int| 0 <= m < i ==> #[trigger] jk@[2 * m + 1] < n_axes,
        decreases n_pairs - i,
    {
        let j = jk[2 * i];
        let k = jk[2 * i + 1];
        if !rho_finite[i] {
            assert(spec_pair_failure(jk@, rho_finite@, i as int, n_axes as int) == Some(
                SemiflowStatus::NanInf,
            ));
            return Err(SemiflowStatus::NanInf);
        }
        if j >= n_axes || k >= n_axes {
            assert(spec_pair_failure(jk@, rho_finite@, i as int, n_axes as int) == Some(
                SemiflowStatus::GridMismatch,
            ));
            return Err(SemiflowStatus::GridMismatch);
        }
        pairs.push((j, k));
        i = i + 1;
    }
    Ok(pairs)
}

/// Decodes a coupling tag: 0 uncoupled, 1 tridiagonal (its strength must be
/// finite), 2 an explicit pair list, anything else `OutOfDomain`.
pub fn decode_coupling(
    tag: u32,
    tridiag_rho_finite: bool,
    jk: &[usize],
    rho_finite: &[bool],
    n_pairs: usize,
    n_axes: usize,
) -> (r: Result<CouplingPlan, SemiflowStatus>)
    requires
        tag == 2 ==> 2 * n_pairs <= jk@.len() && n_pairs <= rho_finite@.len(),
    ensures
        tag == 0 ==> r == Ok::<CouplingPlan, SemiflowStatus>(CouplingPlan::Uncoupled),
        tag == 1 ==> r == (if tridiag_rho_finite {
            Ok::<CouplingPlan, SemiflowStatus>(CouplingPlan::Tridiagonal)
        } else {
            Err(SemiflowStatus::NanInf)
        }),
        tag == 2 ==> match r {
            Ok(CouplingPlan::Pairs(p)) => {
                &&& p@.len() == n_pairs
                &&& forall|i: int| 0 <= i < n_pairs ==> #[trigger] p@[i] == (jk@[2 * i], jk@[2 * i + 1])
                &&& forall|i: int|
                    0 <= i < n_pairs ==> #[trigger] spec_pair_failure(jk@, rho_finite@, i, n_axes as int)
                        is None
                &&& forall|i: int|
                    0 <= i < n_pairs ==> (#[trigger] p@[i]).0 < n_axes && p@[i].1 < n_axes && rho_finite@[i]
            },
            Ok(_) => false,
            Err(s) => exists|i: int|
                0 <= i < n_pairs && spec_pair_failure(jk@, rho_finite@, i, n_axes as int) == Some(s)
                    && forall|j: int|
                    0 <= j < i ==> #[trigger] spec_pair_failure(jk@, rho_finite@, j, n_axes as int)
                        is None,
        },
        tag > 2 ==> r == Err::<CouplingPlan, SemiflowStatus>(SemiflowStatus::OutOfDomain),
{
    if tag == 0 {
        Ok(CouplingPlan::Uncoupled)
    } else if tag == 1 {
        if !tridiag_rho_finite {
            Err(SemiflowStatus::NanInf)
        } else {
            Ok(CouplingPlan::Tridiagonal)
        }
    } else if tag == 2 {
        let decoded = decode_pairs(jk, rho_finite, n_pairs, n_axes);
        match decoded {
            Ok(p) => Ok(CouplingPlan::Pairs(p)),
            Err(s) => Err(s),
        }
    } else {
        Err(SemiflowStatus::OutOfDomain)
    }
}

/// The two axes of a pair are neighbours.
pub open spec fn spec_adjacent(p: (usize, usize)) -> bool {
    p.0 + 1 == p.1 || p.1 + 1 == p.0
}

/// Pair `i` of a pair list is acceptable: neighbouring axes and a
/// positive-definite block.
pub open spec fn spec_pair_ok(p: Seq<(usize, usize)>, det_positive: Seq<bool>, i: int) -> bool {
    spec_adjacent(p[i]) && det_positive[i]
}

/// Whether the two axes of a pair are neighbours.
pub fn pair_adjacent(p: (usize, usize)) -> (b: bool)
    ensures
        b == spec_adjacent(p),
{
    let (j, k) = p;
    let (lo, hi) = if j < k { (j, k) } else { (k, j) };
    lo < hi && hi - lo == 1
}

/// The status of the wall check: no drift, and for an explicit pair list
/// only acceptable pairs; any breach is `OutOfDomain`.
pub open spec fn spec_coupled_walls(drift_is_zero: bool, plan: CouplingPlan, det_positive: Seq<bool>) -> SemiflowStatus {
    if !drift_is_zero {
        SemiflowStatus::OutOfDomain
    } else if plan is Pairs && exists|i: int|
        0 <= i < plan->0@.len() && !#[trigger] spec_pair_ok(plan->0@, det_positive, i) {
        SemiflowStatus::OutOfDomain
    } else {
        SemiflowStatus::Success
    }
}

/// The wall check in plain terms: drift anywhere is `OutOfDomain`; without
/// drift an uncoupled or tridiagonal plan passes, and an explicit pair list
/// passes exactly when every pair, at every position, joins neighbouring
/// axes and has a positive-definite block; a bad pair at any position is
/// `OutOfDomain`. No other status comes out.
pub proof fn lemma_coupled_walls(drift_is_zero: bool, plan: CouplingPlan, det_positive: Seq<bool>)
    ensures
        !drift_is_zero ==> spec_coupled_walls(drift_is_zero, plan, det_positive) == SemiflowStatus::OutOfDomain,
        drift_is_zero && !(plan is Pairs) ==> spec_coupled_walls(drift_is_zero, plan, det_positive)
            == SemiflowStatus::Success,
        drift_is_zero && plan is Pairs ==> (spec_coupled_walls(drift_is_zero, plan, det_positive)
            == SemiflowStatus::Success <==> forall|i: int|
            0 <= i < plan->0@.len() ==> ((#[trigger] plan->0@[i]).0 + 1 == plan->0@[i].1 || plan->0@[i].1 + 1
                == plan->0@[i].0) && det_positive[i]),
        forall|i: int|
            0 <= i < plan->0@.len() && plan is Pairs && !(((#[trigger] plan->0@[i]).0 + 1 == plan->0@[i].1
                || plan->0@[i].1 + 1 == plan->0@[i].0) && det_positive[i]) ==> spec_coupled_walls(
                drift_is_zero,
                plan,
                det_positive,
            ) == SemiflowStatus::OutOfDomain,
        spec_coupled_walls(drift_is_zero, plan, det_positive) == SemiflowStatus::Success || spec_coupled_walls(
            drift_is_zero,
            plan,
            det_positive,
        ) == SemiflowStatus::OutOfDomain,
{
    if drift_is_zero && plan is Pairs {
        let p = plan->0@;
        if forall|i: int|
            0 <= i < p.len() ==> ((#[trigger] p[i]).0 + 1 == p[i].1 || p[i].1 + 1 == p[i].0) && det_positive[i] {
            assert forall|i: int| 0 <= i < p.len() implies #[trigger] spec_pair_ok(p, det_positive, i) by {
                assert(p[i] == p[i]);
            }
        } else {
            assert(exists|i: int|
                0 <= i < p.len() && !(((#[trigger] p[i]).0 + 1 == p[i].1 || p[i].1 + 1 == p[i].0)
                    && det_positive[i]));
            let i = choose|i: int|
                0 <= i < p.len() && !(((#[trigger] p[i]).0 + 1 == p[i].1 || p[i].1 + 1 == p[i].0)
                    && det_positive[i]);
            assert(!spec_pair_ok(p, det_positive, i));
        }
    }
    assert forall|i: int|
        0 <= i < plan->0@.len() && plan is Pairs && !(((#[trigger] plan->0@[i]).0 + 1 == plan->0@[i].1
            || plan->0@[i].1 + 1 == plan->0@[i].0) && det_positive[i]) implies spec_coupled_walls(
            drift_is_zero,
            plan,
            det_positive,
        ) == SemiflowStatus::OutOfDomain by {
        assert(!spec_pair_ok(plan->0@, det_positive, i));
    }
}

/// The walls a coupled evolver is checked against: no drift, and for an
/// explicit pair list only neighbouring axes with a positive-definite pair
/// block. Any breach is `OutOfDomain`.
pub fn coupled_walls(drift_is_zero: bool, plan: &CouplingPlan, det_positive: &[bool]) -> (s:
    SemiflowStatus)
    requires
        plan matches CouplingPlan::Pairs(p) ==> p@.len() <= det_positive@.len(),
    ensures
        s == spec_coupled_walls(drift_is_zero, *plan, det_positive@),
        s == SemiflowStatus::Success || s == SemiflowStatus::OutOfDomain,
        !drift_is_zero ==> s == SemiflowStatus::OutOfDomain,
        drift_is_zero && !(plan is Pairs) ==> s == SemiflowStatus::Success,
        drift_is_zero && plan is Pairs ==> (s == SemiflowStatus::Success <==> forall|i: int|
            0 <= i < plan->0@.len() ==> ((#[trigger] plan->0@[i]).0 + 1 == plan->0@[i].1 || plan->0@[i].1 + 1
                == plan->0@[i].0) && det_positive@[i]),
{
    proof {
        lemma_coupled_walls(drift_is_zero, *plan, det_positive@);
    }
    if !drift_is_zero {
        return SemiflowStatus::OutOfDomain;
    }
    match plan {
        CouplingPlan::Pairs(p) => {
            let mut i: usize = 0;
            while i < p.len()
                invariant
                    plan is Pairs,
                    plan->0@ == p@,
                    drift_is_zero,
                    p@.len() <= det_positive@.len(),
                    i <= p@.len(),
                    forall|m: int| 0 <= m < i ==> #[trigger] spec_pair_ok(p@, det_positive@, m),
                decreases p@.len() - i,
            {
                let pi = p[i];
                let di = det_positive[i];
                if !pair_adjacent(pi) || !di {
                    assert(!spec_pair_ok(p@, det_positive@, i as int));
                    return SemiflowStatus::OutOfDomain;
                }
                i = i + 1;
            }
            SemiflowStatus::Success
        },
        _ => SemiflowStatus::Success,
    }
}

/// The pointer check of the coupled constructor: the coefficient, domain
/// and output pointers are always required; the pair arrays only for an
/// explicit pair list (tag 2).
pub fn coupled_new_null_check(core_present: bool, coupling_tag: u32, pairs_present: bool) -> (s:
    SemiflowStatus)
    ensures
        s == (if !core_present {
            SemiflowStatus::NullPtr
        } else if coupling_tag == 2 && !pairs_present {
            SemiflowStatus::NullPtr
        } else {
            SemiflowStatus::Success
        }),
{
    if !core_present {
        return SemiflowStatus::NullPtr;
    }
    if coupling_tag == 2 && !pairs_present {
        return SemiflowStatus::NullPtr;
    }
    SemiflowStatus::Success
}

} // verus!
