//! Buffer sizes the C API derives from engine parameters: tensor-product
//! grids, and the capacity the adjoint Fokker-Planck stepper needs.

use vstd::prelude::*;
use vstd::arithmetic::power::{pow, lemma_pow_increases, lemma0_pow, lemma1_pow};
use crate::status::SemiflowStatus;

verus! {

/// `x`, or `usize::MAX` when `x` is larger.
pub open spec fn saturate(x: int) -> int {
    if x > usize::MAX {
        usize::MAX as int
    } else {
        x
    }
}

/// `base` to the power `exp`, saturating at `usize::MAX`.
pub fn saturating_pow(base: usize, exp: usize) -> (r: usize)
    ensures
        r == saturate(pow(base as int, exp as nat)),
{
    if base == 0 {
        if exp == 0 {
            proof {
                reveal(pow);
            }
            return 1;
        }
        proof {
            lemma0_pow(exp as nat);
        }
        return 0;
    }
    if base == 1 {
        proof {
            lemma1_pow(exp as nat);
        }
        return 1;
    }
    let mut acc: usize = 1;
    let mut i: usize = 0;
    proof {
        reveal(pow);
    }
    while i < exp
        invariant
            i <= exp,
            acc == pow(base as int, i as nat),
        decreases exp - i,
    {
        proof {
            reveal(pow);
            assert(pow(base as int, (i + 1) as nat) == base * pow(base as int, i as nat));
            assert(acc * base == base * acc) by (nonlinear_arith);
        }
        match acc.checked_mul(base) {
            Some(p) => {
                acc = p;
            },
            None => {
                proof {
                    assert(acc * base > usize::MAX);
                    assert(base > 0) by (nonlinear_arith)
                        requires
                            acc * base > usize::MAX,
                            base >= 0,
                    ;
                    lemma_pow_increases(base as nat, (i + 1) as nat, exp as nat);
                }
                return usize::MAX;
            },
        }
        i = i + 1;
    }
    acc
}

/// `a * b`, saturating at `usize::MAX`.
pub fn saturating_mul(a: usize, b: usize) -> (r: usize)
    ensures
        r == saturate(a * b),
{
    match a.checked_mul(b) {
        Some(p) => p,
        None => usize::MAX,
    }
}

/// The number of nodes of a `d`-dimensional tensor grid with `n_per_axis`
/// nodes on every axis; a count too large for `usize` is reported as
/// `usize::MAX`, which no caller buffer can match.
pub fn tensor_grid_size(n_per_axis: usize, d: u32) -> (r: usize)
    ensures
        r == saturate(pow(n_per_axis as int, d as nat)),
{
    saturating_pow(n_per_axis, d as usize)
}

/// The output capacity an adjoint Fokker-Planck run of `n_steps` steps on
/// `n_in` particles needs: every step may split a particle into four.
pub open spec fn spec_fp_required_capacity(n_steps: usize, n_in: usize) -> int {
    saturate(saturate(pow(4, n_steps as nat)) * n_in)
}

/// The output capacity an adjoint Fokker-Planck run needs.
pub fn fp_required_capacity(n_steps: usize, n_in: usize) -> (r: usize)
    ensures
        r == spec_fp_required_capacity(n_steps, n_in),
{
    saturating_mul(saturating_pow(4, n_steps), n_in)
}

/// The argument gate of an adjoint Fokker-Planck step: between one and
/// `max_steps` steps (`OutOfDomain`), and room for the worst-case output
/// (`GridMismatch`).
pub fn fp_step_gate(n_steps: usize, max_steps: usize, n_in: usize, out_cap: usize) -> (r: Result<
    (),
    SemiflowStatus,
>)
    ensures
        r == (if n_steps == 0 || n_steps > max_steps {
            Err(SemiflowStatus::OutOfDomain)
        } else if out_cap < spec_fp_required_capacity(n_steps, n_in) {
            Err(SemiflowStatus::GridMismatch)
        } else {
            Ok::<(), SemiflowStatus>(())
        }),
{
    if n_steps == 0 || n_steps > max_steps {
        return Err(SemiflowStatus::OutOfDomain);
    }
    let required = fp_required_capacity(n_steps, n_in);
    if out_cap < required {
        Err(SemiflowStatus::GridMismatch)
    } else {
        Ok(())
    }
}

/// The produced output fits the caller's capacity.
pub fn check_output_fits(n_out: usize, out_cap: usize) -> (r: Result<(), SemiflowStatus>)
    ensures
        r == (if n_out > out_cap {
            Err(SemiflowStatus::GridMismatch)
        } else {
            Ok::<(), SemiflowStatus>(())
        }),
{
    if n_out > out_cap {
        Err(SemiflowStatus::GridMismatch)
    } else {
        Ok(())
    }
}

/// `n_t` copies of the initial slice: the starting state of a
/// time-slab (Howland) evolver.
pub fn replicate<T: Copy>(slice: &[T], n_t: usize) -> (r: Vec<Vec<T>>)
    ensures
        r@.len() == n_t,
        forall|i: int| 0 <= i < n_t ==> #[trigger] r@[i]@ == slice@,
{
    let mut out: Vec<Vec<T>> = Vec::new();
    let mut i: usize = 0;
    while i < n_t
        invariant
            i <= n_t,
            out@.len() == i,
            forall|m: int| 0 <= m < i ==> #[trigger] out@[m]@ == slice@,
        decreases n_t - i,
    {
        let mut copy: Vec<T> = Vec::new();
        let mut k: usize = 0;
        while k < slice.len()
            invariant
                k <= slice@.len(),
                copy@ == slice@.subrange(0, k as int),
            decreases slice@.len() - k,
        {
            copy.push(slice[k]);
            k = k + 1;
        }
        assert(slice@.subrange(0, slice@.len() as int) =~= slice@);
        out.push(copy);
        i = i + 1;
    }
    out
}

/// What a marginal read of a particle measure reports: the axis must be
/// one the measure has (`OutOfDomain`, nothing reported); otherwise the
/// number of particles is always reported, and a capacity below it is
/// `GridMismatch` so that the caller can retry with a larger buffer.
pub fn marginal_plan(axis: usize, dim: usize, cap: usize, n_particles: usize) -> (r: (
    Result<(), SemiflowStatus>,
    Option<usize>,
))
    ensures
        r == (if axis >= dim {
            (Err::<(), SemiflowStatus>(SemiflowStatus::OutOfDomain), None::<usize>)
        } else if cap < n_particles {
            (Err(SemiflowStatus::GridMismatch), Some(n_particles))
        } else {
            (Ok(()), Some(n_particles))
        }),
{
    if axis >= dim {
        (Err(SemiflowStatus::OutOfDomain), None)
    } else if cap < n_particles {
        (Err(SemiflowStatus::GridMismatch), Some(n_particles))
    } else {
        (Ok(()), Some(n_particles))
    }
}

} // verus!
