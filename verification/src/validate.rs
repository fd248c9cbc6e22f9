//! Domain checks the entry points make on their inputs before building an
//! engine, raised either as engine errors (with the message the status
//! mapping reads) or directly as statuses.
//!
//! Floating-point predicates arrive as booleans computed by the caller.

use vstd::prelude::*;
use crate::gate::OptionalInput;
use crate::status::{ErrorKind, SemiflowStatus};

verus! {

/// The initial condition holds only finite values.
pub fn validate_u0_finite(all_finite: bool) -> (r: Result<(), ErrorKind>)
    ensures
        r == (if all_finite {
            Ok::<(), ErrorKind>(())
        } else {
            Err(ErrorKind::DomainViolation { what: "u0 contains NaN or Inf", value_is_finite: false })
        }),
{
    if all_finite {
        Ok(())
    } else {
        Err(ErrorKind::DomainViolation { what: "u0 contains NaN or Inf", value_is_finite: false })
    }
}

/// A Greeks sweep takes at least one Chernoff step.
pub fn validate_n_chernoff(n: usize) -> (r: Result<(), ErrorKind>)
    ensures
        r == (if n == 0 {
            Err(ErrorKind::DomainViolation { what: "n_chernoff must be >= 1", value_is_finite: true })
        } else {
            Ok::<(), ErrorKind>(())
        }),
{
    if n == 0 {
        Err(ErrorKind::DomainViolation { what: "n_chernoff must be >= 1", value_is_finite: true })
    } else {
        Ok(())
    }
}

/// The diffusion scale of a Greeks sweep is finite and positive.
pub fn validate_scale(theta_finite: bool, theta_positive: bool) -> (r: Result<(), ErrorKind>)
    ensures
        r == (if !theta_finite || !theta_positive {
            Err(
                ErrorKind::DomainViolation {
                    what: "scale_theta must be finite and positive",
                    value_is_finite: theta_finite,
                },
            )
        } else {
            Ok::<(), ErrorKind>(())
        }),
{
    if !theta_finite || !theta_positive {
        Err(
            ErrorKind::DomainViolation {
                what: "scale_theta must be finite and positive",
                value_is_finite: theta_finite,
            },
        )
    } else {
        Ok(())
    }
}

/// The initial condition of a Greeks sweep has one value per grid node.
pub fn validate_u0_len(u0_len: usize, n_grid: usize) -> (r: Result<(), ErrorKind>)
    ensures
        r == (if u0_len != n_grid {
            Err(ErrorKind::DomainViolation { what: "u0_len must equal n_grid", value_is_finite: true })
        } else {
            Ok::<(), ErrorKind>(())
        }),
{
    if u0_len != n_grid {
        Err(ErrorKind::DomainViolation { what: "u0_len must equal n_grid", value_is_finite: true })
    } else {
        Ok(())
    }
}

/// The sweep time of a Greeks evaluation is finite and non-negative.
pub fn validate_sweep_time(t_finite: bool, t_nonnegative: bool) -> (r: Result<(), ErrorKind>)
    ensures
        r == (if !t_finite || !t_nonnegative {
            Err(
                ErrorKind::DomainViolation {
                    what: "t must be finite and >= 0",
                    value_is_finite: t_finite,
                },
            )
        } else {
            Ok::<(), ErrorKind>(())
        }),
{
    if !t_finite || !t_nonnegative {
        Err(ErrorKind::DomainViolation { what: "t must be finite and >= 0", value_is_finite: t_finite })
    } else {
        Ok(())
    }
}

/// An interleaved wave function `[re0, im0, ...]` has `2 * n` values, all
/// finite; the length is checked first.
pub fn validate_psi_interleaved(psi_len: usize, n: usize, all_finite: bool) -> (r: Result<
    (),
    ErrorKind,
>)
    ensures
        r == (if psi_len != 2 * n {
            Err(
                ErrorKind::DomainViolation {
                    what: "psi0_len must equal 2*n (interleaved re/im)",
                    value_is_finite: true,
                },
            )
        } else if !all_finite {
            Err(ErrorKind::DomainViolation { what: "psi0 contains NaN or Inf", value_is_finite: false })
        } else {
            Ok::<(), ErrorKind>(())
        }),
{
    if n > usize::MAX / 2 || psi_len != 2 * n {
        Err(
            ErrorKind::DomainViolation {
                what: "psi0_len must equal 2*n (interleaved re/im)",
                value_is_finite: true,
            },
        )
    } else if !all_finite {
        Err(ErrorKind::DomainViolation { what: "psi0 contains NaN or Inf", value_is_finite: false })
    } else {
        Ok(())
    }
}

/// The optional potential of a Schrödinger evolver: absent means zero at
/// every node; present means one finite value per node.
pub fn validate_potential(present: bool, v_len: usize, n: usize, all_finite: bool) -> (r: Result<
    OptionalInput,
    ErrorKind,
>)
    ensures
        r == (if !present {
            Ok::<OptionalInput, ErrorKind>(OptionalInput::Zeros { len: n })
        } else if v_len != n {
            Err(ErrorKind::DomainViolation { what: "v_len must equal n", value_is_finite: true })
        } else if !all_finite {
            Err(ErrorKind::DomainViolation { what: "v contains NaN or Inf", value_is_finite: false })
        } else {
            Ok(OptionalInput::Given)
        }),
{
    if !present {
        Ok(OptionalInput::Zeros { len: n })
    } else if v_len != n {
        Err(ErrorKind::DomainViolation { what: "v_len must equal n", value_is_finite: true })
    } else if !all_finite {
        Err(ErrorKind::DomainViolation { what: "v contains NaN or Inf", value_is_finite: false })
    } else {
        Ok(OptionalInput::Given)
    }
}

/// A buffer has the length an engine expects; a wrong length is a grid
/// mismatch.
pub fn check_len(got: usize, expected: usize) -> (r: Result<(), SemiflowStatus>)
    ensures
        r == (if got != expected {
            Err(SemiflowStatus::GridMismatch)
        } else {
            Ok::<(), SemiflowStatus>(())
        }),
{
    if got != expected {
        Err(SemiflowStatus::GridMismatch)
    } else {
        Ok(())
    }
}

/// The initial condition of a 2-D manifold evolver has `nx * ny` values;
/// a wrong length is a grid mismatch.
pub fn validate_grid_len_2d(u0_len: usize, nx: usize, ny: usize) -> (r: Result<(), SemiflowStatus>)
    ensures
        r == (if u0_len != nx * ny {
            Err(SemiflowStatus::GridMismatch)
        } else {
            Ok::<(), SemiflowStatus>(())
        }),
{
    let matches = match nx.checked_mul(ny) {
        Some(p) => u0_len == p,
        None => false,
    };
    if !matches {
        Err(SemiflowStatus::GridMismatch)
    } else {
        Ok(())
    }
}

/// The parameters of a 1-D obstacle evolver: a finite positive diffusion
/// first, then finite drift and reaction; a non-finite value is reported
/// as such.
pub fn validate_obstacle_params(a_finite: bool, a_positive: bool, b_finite: bool, c_finite: bool) -> (r:
    Result<(), ErrorKind>)
    ensures
        r == (if !a_finite || !a_positive {
            Err(
                ErrorKind::DomainViolation {
                    what: "obstacle: a must be finite and > 0",
                    value_is_finite: a_finite,
                },
            )
        } else if !b_finite || !c_finite {
            Err(
                ErrorKind::DomainViolation {
                    what: "obstacle: b and c must be finite",
                    value_is_finite: false,
                },
            )
        } else {
            Ok::<(), ErrorKind>(())
        }),
{
    if !a_finite || !a_positive {
        Err(
            ErrorKind::DomainViolation {
                what: "obstacle: a must be finite and > 0",
                value_is_finite: a_finite,
            },
        )
    } else if !b_finite || !c_finite {
        Err(
            ErrorKind::DomainViolation {
                what: "obstacle: b and c must be finite",
                value_is_finite: false,
            },
        )
    } else {
        Ok(())
    }
}

/// The domain of a Gamma obstacle evolver: finite bounds, `xmin < xmax`,
/// at least four nodes, in that order.
pub fn validate_gamma_domain(bounds_finite: bool, ordered: bool, n: usize) -> (r: Result<
    (),
    ErrorKind,
>)
    ensures
        r == (if !bounds_finite {
            Err(
                ErrorKind::DomainViolation {
                    what: "obstacle_gamma: domain bounds must be finite",
                    value_is_finite: false,
                },
            )
        } else if !ordered {
            Err(
                ErrorKind::DomainViolation {
                    what: "obstacle_gamma: xmin must be < xmax",
                    value_is_finite: true,
                },
            )
        } else if n < 4 {
            Err(
                ErrorKind::DomainViolation {
                    what: "obstacle_gamma: n must be >= 4 (Grid1D requirement)",
                    value_is_finite: true,
                },
            )
        } else {
            Ok::<(), ErrorKind>(())
        }),
{
    if !bounds_finite {
        Err(
            ErrorKind::DomainViolation {
                what: "obstacle_gamma: domain bounds must be finite",
                value_is_finite: false,
            },
        )
    } else if !ordered {
        Err(
            ErrorKind::DomainViolation {
                what: "obstacle_gamma: xmin must be < xmax",
                value_is_finite: true,
            },
        )
    } else if n < 4 {
        Err(
            ErrorKind::DomainViolation {
                what: "obstacle_gamma: n must be >= 4 (Grid1D requirement)",
                value_is_finite: true,
            },
        )
    } else {
        Ok(())
    }
}

/// The domain of a 2-D obstacle evolver: finite bounds, `xmin < xmax`,
/// `ymin < ymax`, a finite obstacle level, in that order.
pub fn validate_nd2_domain(bounds_finite: bool, x_ordered: bool, y_ordered: bool, level_finite: bool) -> (r:
    Result<(), ErrorKind>)
    ensures
        r == (if !bounds_finite {
            Err(
                ErrorKind::DomainViolation {
                    what: "obstacle_nd2: domain bounds must be finite",
                    value_is_finite: false,
                },
            )
        } else if !x_ordered {
            Err(ErrorKind::DomainViolation { what: "xmin must be < xmax", value_is_finite: true })
        } else if !y_ordered {
            Err(ErrorKind::DomainViolation { what: "ymin must be < ymax", value_is_finite: true })
        } else if !level_finite {
            Err(
                ErrorKind::DomainViolation {
                    what: "obstacle_nd2: level must be finite",
                    value_is_finite: false,
                },
            )
        } else {
            Ok::<(), ErrorKind>(())
        }),
{
    if !bounds_finite {
        Err(
            ErrorKind::DomainViolation {
                what: "obstacle_nd2: domain bounds must be finite",
                value_is_finite: false,
            },
        )
    } else if !x_ordered {
        Err(ErrorKind::DomainViolation { what: "xmin must be < xmax", value_is_finite: true })
    } else if !y_ordered {
        Err(ErrorKind::DomainViolation { what: "ymin must be < ymax", value_is_finite: true })
    } else if !level_finite {
        Err(
            ErrorKind::DomainViolation {
                what: "obstacle_nd2: level must be finite",
                value_is_finite: false,
            },
        )
    } else {
        Ok(())
    }
}

/// The domain of a tensor-product engine (the 6-D Smolyak grid, the 5-D
/// Carnot evolver): finite bounds (`NanInf`), then
/// `lo < hi` and at least four nodes per axis (`GridMismatch`).
pub fn validate_tensor_domain(bounds_finite: bool, ordered: bool, n_per_axis: usize) -> (r: Result<
    (),
    SemiflowStatus,
>)
    ensures
        r == (if !bounds_finite {
            Err(SemiflowStatus::NanInf)
        } else if !ordered || n_per_axis < 4 {
            Err(SemiflowStatus::GridMismatch)
        } else {
            Ok::<(), SemiflowStatus>(())
        }),
{
    if !bounds_finite {
        Err(SemiflowStatus::NanInf)
    } else if !ordered {
        Err(SemiflowStatus::GridMismatch)
    } else if n_per_axis < 4 {
        Err(SemiflowStatus::GridMismatch)
    } else {
        Ok(())
    }
}

/// The time horizon of a graph trajectory: non-finite is `NanInf`, a
/// finite non-positive one `OutOfDomain`.
pub fn validate_horizon(finite: bool, positive: bool) -> (r: Result<(), SemiflowStatus>)
    ensures
        r == (if !finite {
            Err(SemiflowStatus::NanInf)
        } else if !positive {
            Err(SemiflowStatus::OutOfDomain)
        } else {
            Ok::<(), SemiflowStatus>(())
        }),
{
    if !finite {
        Err(SemiflowStatus::NanInf)
    } else if !positive {
        Err(SemiflowStatus::OutOfDomain)
    } else {
        Ok(())
    }
}

/// How one input value fares against a validator.
#[derive(Debug, Clone, Copy, PartialEq, Eq, Structural)]
pub enum ValueClass {
    /// The value is accepted.
    Accepted,
    /// The value is NaN or infinite.
    NonFinite,
    /// The value is finite but outside the allowed range.
    OutOfRange,
    /// The value breaks the order the grid needs (a lower bound not below
    /// its upper bound).
    Misordered,
}

/// The status a rejected value is reported as.
pub open spec fn spec_class_status(c: ValueClass) -> SemiflowStatus {
    match c {
        ValueClass::Accepted => SemiflowStatus::Success,
        ValueClass::NonFinite => SemiflowStatus::NanInf,
        ValueClass::OutOfRange => SemiflowStatus::OutOfDomain,
        ValueClass::Misordered => SemiflowStatus::GridMismatch,
    }
}

/// Validates values one by one: the first rejected value decides the
/// status (`NanInf` for a non-finite one, `OutOfDomain` for one out of
/// range, `GridMismatch` for misordered bounds); all accepted is `Ok`.
pub fn first_rejected(classes: &[ValueClass]) -> (r: Result<(), SemiflowStatus>)
    ensures
        match r {
            Ok(()) => forall|i: int| 0 <= i < classes@.len() ==> #[trigger] classes@[i]
                == ValueClass::Accepted,
            Err(s) => exists|i: int|
                0 <= i < classes@.len() && classes@[i] != ValueClass::Accepted && s
                    == spec_class_status(classes@[i]) && forall|j: int|
                    0 <= j < i ==> #[trigger] classes@[j] == ValueClass::Accepted,
        },
{
    let mut i: usize = 0;
    while i < classes.len()
        invariant
            i <= classes@.len(),
            forall|j: int| 0 <= j < i ==> #[trigger] classes@[j] == ValueClass::Accepted,
        decreases classes@.len() - i,
    {
        match classes[i] {
            ValueClass::Accepted => {},
            ValueClass::NonFinite => {
                return Err(SemiflowStatus::NanInf);
            },
            ValueClass::OutOfRange => {
                return Err(SemiflowStatus::OutOfDomain);
            },
            ValueClass::Misordered => {
                return Err(SemiflowStatus::GridMismatch);
            },
        }
        i = i + 1;
    }
    Ok(())
}

/// The parameters of a two-component matrix-diffusion evolver: at least
/// five nodes, a finite positive diagonal, `2 * n` initial values, in that
/// order.
pub fn validate_matrix_params(n: usize, a_finite: bool, a_positive: bool, u0_len: usize) -> (r:
    Result<(), ErrorKind>)
    ensures
        r == (if n < 5 {
            Err(
                ErrorKind::DomainViolation {
                    what: "n must be >= 5 (block-CN stencil)",
                    value_is_finite: true,
                },
            )
        } else if !a_finite || !a_positive {
            Err(
                ErrorKind::DomainViolation {
                    what: "a_diag must be finite and > 0",
                    value_is_finite: a_finite,
                },
            )
        } else if u0_len != 2 * n {
            Err(ErrorKind::DomainViolation { what: "u0_len must equal 2*n", value_is_finite: true })
        } else {
            Ok::<(), ErrorKind>(())
        }),
{
    if n < 5 {
        Err(
            ErrorKind::DomainViolation {
                what: "n must be >= 5 (block-CN stencil)",
                value_is_finite: true,
            },
        )
    } else if !a_finite || !a_positive {
        Err(ErrorKind::DomainViolation { what: "a_diag must be finite and > 0", value_is_finite: a_finite })
    } else if n > usize::MAX / 2 || u0_len != 2 * n {
        Err(ErrorKind::DomainViolation { what: "u0_len must equal 2*n", value_is_finite: true })
    } else {
        Ok(())
    }
}

/// The parameters of an adjoint Fokker-Planck stepper: finite
/// coefficients (the message carries `a`, so only a non-finite `a` reads as
/// non-finite), then a non-negative diffusion, then at least one step.
pub fn validate_adjoint_fp_params(
    a_finite: bool,
    a_nonnegative: bool,
    b_finite: bool,
    c_finite: bool,
    max_steps: usize,
) -> (r: Result<(), ErrorKind>)
    ensures
        r == (if !a_finite || !b_finite || !c_finite {
            Err(
                ErrorKind::DomainViolation {
                    what: "adjoint_fp: a, b, c must be finite",
                    value_is_finite: a_finite,
                },
            )
        } else if !a_nonnegative {
            Err(
                ErrorKind::DomainViolation {
                    what: "adjoint_fp: a must be >= 0",
                    value_is_finite: true,
                },
            )
        } else if max_steps == 0 {
            Err(
                ErrorKind::DomainViolation {
                    what: "adjoint_fp: max_steps must be >= 1",
                    value_is_finite: true,
                },
            )
        } else {
            Ok::<(), ErrorKind>(())
        }),
{
    if !a_finite || !b_finite || !c_finite {
        Err(ErrorKind::DomainViolation { what: "adjoint_fp: a, b, c must be finite", value_is_finite: a_finite })
    } else if !a_nonnegative {
        Err(ErrorKind::DomainViolation { what: "adjoint_fp: a must be >= 0", value_is_finite: true })
    } else if max_steps == 0 {
        Err(ErrorKind::DomainViolation { what: "adjoint_fp: max_steps must be >= 1", value_is_finite: true })
    } else {
        Ok(())
    }
}

/// A Schrödinger evolver takes at least one Chernoff step per evolution.
pub fn validate_schrodinger_steps(n_steps: usize) -> (r: Result<(), ErrorKind>)
    ensures
        r == (if n_steps == 0 {
            Err(ErrorKind::DomainViolation { what: "schrodinger: n_steps must be >= 1", value_is_finite: true })
        } else {
            Ok::<(), ErrorKind>(())
        }),
{
    if n_steps == 0 {
        Err(ErrorKind::DomainViolation { what: "schrodinger: n_steps must be >= 1", value_is_finite: true })
    } else {
        Ok(())
    }
}

/// A particle engine is compiled for `compiled` dimensions; any other
/// dimension is `Unsupported`.
pub fn validate_dimension(dim: usize, compiled: usize) -> (r: Result<(), SemiflowStatus>)
    ensures
        r == (if dim != compiled {
            Err(SemiflowStatus::Unsupported)
        } else {
            Ok::<(), SemiflowStatus>(())
        }),
{
    if dim != compiled {
        Err(SemiflowStatus::Unsupported)
    } else {
        Ok(())
    }
}

/// A particle measure is built from at least one particle; none is a grid
/// mismatch.
pub fn validate_particle_count(n_part: usize) -> (r: Result<(), SemiflowStatus>)
    ensures
        r == (if n_part == 0 {
            Err(SemiflowStatus::GridMismatch)
        } else {
            Ok::<(), SemiflowStatus>(())
        }),
{
    if n_part == 0 {
        Err(SemiflowStatus::GridMismatch)
    } else {
        Ok(())
    }
}

} // verus!
