use semiflow_ffi::gate::OptionalInput;
use semiflow_ffi::status::ErrorKind;
use semiflow_ffi::validate::{
    check_len, first_rejected, validate_dimension, validate_particle_count, validate_schrodinger_steps, validate_adjoint_fp_params, validate_gamma_domain, validate_grid_len_2d,
    validate_horizon, validate_matrix_params, validate_n_chernoff, validate_nd2_domain,
    validate_obstacle_params, validate_potential, validate_psi_interleaved, validate_scale,
    validate_sweep_time, validate_tensor_domain, validate_u0_finite, validate_u0_len, ValueClass,
};
use semiflow_ffi::SemiflowStatus;

fn status_of(r: Result<(), ErrorKind>) -> SemiflowStatus {
    match r {
        Ok(()) => SemiflowStatus::Success,
        Err(e) => SemiflowStatus::from_error(&e),
    }
}

#[test]
fn greeks_validators() {
    assert_eq!(status_of(validate_u0_finite(false)), SemiflowStatus::NanInf);
    assert_eq!(status_of(validate_u0_finite(true)), SemiflowStatus::Success);
    assert_eq!(status_of(validate_n_chernoff(0)), SemiflowStatus::OutOfDomain);
    assert_eq!(status_of(validate_n_chernoff(1)), SemiflowStatus::Success);
    assert_eq!(status_of(validate_scale(false, false)), SemiflowStatus::NanInf);
    assert_eq!(status_of(validate_scale(true, false)), SemiflowStatus::OutOfDomain);
    assert_eq!(status_of(validate_u0_len(3, 4)), SemiflowStatus::GridMismatch);
    assert_eq!(status_of(validate_u0_len(4, 4)), SemiflowStatus::Success);
    assert_eq!(status_of(validate_sweep_time(false, true)), SemiflowStatus::NanInf);
    assert_eq!(status_of(validate_sweep_time(true, false)), SemiflowStatus::OutOfDomain);
}

#[test]
fn schrodinger_validators() {
    assert_eq!(status_of(validate_psi_interleaved(7, 4, false)), SemiflowStatus::GridMismatch);
    assert_eq!(status_of(validate_psi_interleaved(8, 4, false)), SemiflowStatus::NanInf);
    assert_eq!(status_of(validate_psi_interleaved(8, 4, true)), SemiflowStatus::Success);
    assert_eq!(status_of(validate_psi_interleaved(0, usize::MAX, true)), SemiflowStatus::GridMismatch);
    assert_eq!(validate_potential(false, 0, 5, false).ok(), Some(OptionalInput::Zeros { len: 5 }));
    assert_eq!(validate_potential(true, 5, 5, true).ok(), Some(OptionalInput::Given));
    let e = validate_potential(true, 4, 5, true).unwrap_err();
    assert_eq!(SemiflowStatus::from_error(&e), SemiflowStatus::GridMismatch);
    let e = validate_potential(true, 5, 5, false).unwrap_err();
    assert_eq!(SemiflowStatus::from_error(&e), SemiflowStatus::NanInf);
}

#[test]
fn manifold_and_matrix_validators() {
    assert_eq!(validate_grid_len_2d(12, 3, 4), Ok(()));
    assert_eq!(validate_grid_len_2d(15, 4, 4), Err(SemiflowStatus::GridMismatch));
    assert_eq!(validate_grid_len_2d(1, usize::MAX, 2), Err(SemiflowStatus::GridMismatch));
    assert_eq!(status_of(validate_matrix_params(4, true, true, 8)), SemiflowStatus::GridMismatch);
    assert_eq!(status_of(validate_matrix_params(5, false, false, 10)), SemiflowStatus::NanInf);
    assert_eq!(status_of(validate_matrix_params(5, true, false, 10)), SemiflowStatus::OutOfDomain);
    assert_eq!(status_of(validate_matrix_params(5, true, true, 9)), SemiflowStatus::GridMismatch);
    assert_eq!(status_of(validate_matrix_params(5, true, true, 10)), SemiflowStatus::Success);
}

#[test]
fn obstacle_validators() {
    assert_eq!(status_of(validate_obstacle_params(false, true, true, true)), SemiflowStatus::NanInf);
    assert_eq!(status_of(validate_obstacle_params(true, false, true, true)), SemiflowStatus::OutOfDomain);
    assert_eq!(status_of(validate_obstacle_params(true, true, false, true)), SemiflowStatus::NanInf);
    // The message carries the drift, so a bad reaction alone is reported as out of domain.
    assert_eq!(status_of(validate_obstacle_params(true, true, true, false)), SemiflowStatus::NanInf);
    assert_eq!(status_of(validate_gamma_domain(false, true, 10)), SemiflowStatus::NanInf);
    assert_eq!(status_of(validate_gamma_domain(true, false, 10)), SemiflowStatus::GridMismatch);
    assert_eq!(status_of(validate_gamma_domain(true, true, 3)), SemiflowStatus::GridMismatch);
    assert_eq!(status_of(validate_gamma_domain(true, true, 4)), SemiflowStatus::Success);
    assert_eq!(status_of(validate_nd2_domain(false, true, true, true)), SemiflowStatus::NanInf);
    assert_eq!(status_of(validate_nd2_domain(true, false, true, true)), SemiflowStatus::GridMismatch);
    assert_eq!(status_of(validate_nd2_domain(true, true, false, true)), SemiflowStatus::GridMismatch);
    assert_eq!(status_of(validate_nd2_domain(true, true, true, false)), SemiflowStatus::NanInf);
}

#[test]
fn tensor_domain_and_horizon() {
    assert_eq!(validate_tensor_domain(false, false, 0), Err(SemiflowStatus::NanInf));
    assert_eq!(validate_tensor_domain(true, false, 10), Err(SemiflowStatus::GridMismatch));
    assert_eq!(validate_tensor_domain(true, true, 3), Err(SemiflowStatus::GridMismatch));
    assert_eq!(validate_tensor_domain(true, true, 4), Ok(()));
    assert_eq!(validate_horizon(false, true), Err(SemiflowStatus::NanInf));
    assert_eq!(validate_horizon(true, false), Err(SemiflowStatus::OutOfDomain));
    assert_eq!(validate_horizon(true, true), Ok(()));
}

#[test]
fn adjoint_fp_validators() {
    assert_eq!(status_of(validate_adjoint_fp_params(false, true, true, true, 3)), SemiflowStatus::NanInf);
    // The message carries `a`: a finite `a` with a non-finite `b` or `c`
    // reads as out of the domain.
    assert_eq!(status_of(validate_adjoint_fp_params(true, true, false, true, 3)), SemiflowStatus::OutOfDomain);
    assert_eq!(status_of(validate_adjoint_fp_params(true, true, true, false, 3)), SemiflowStatus::OutOfDomain);
    // A finite negative diffusion is out of the domain.
    assert_eq!(status_of(validate_adjoint_fp_params(true, false, true, true, 1)), SemiflowStatus::OutOfDomain);
    assert_eq!(status_of(validate_adjoint_fp_params(true, true, true, true, 0)), SemiflowStatus::OutOfDomain);
    assert_eq!(status_of(validate_adjoint_fp_params(true, true, true, true, 1)), SemiflowStatus::Success);
}

#[test]
fn first_rejected_value_decides() {
    assert_eq!(first_rejected(&[ValueClass::Accepted, ValueClass::Accepted]), Ok(()));
    assert_eq!(first_rejected(&[]), Ok(()));
    assert_eq!(first_rejected(&[ValueClass::Accepted, ValueClass::OutOfRange, ValueClass::NonFinite]), Err(SemiflowStatus::OutOfDomain));
    assert_eq!(first_rejected(&[ValueClass::NonFinite, ValueClass::OutOfRange]), Err(SemiflowStatus::NanInf));
    assert_eq!(first_rejected(&[ValueClass::Accepted, ValueClass::Misordered]), Err(SemiflowStatus::GridMismatch));
}

#[test]
fn wrong_lengths_are_grid_mismatches() {
    assert_eq!(check_len(15, 16), Err(SemiflowStatus::GridMismatch));
    assert_eq!(check_len(7, 8), Err(SemiflowStatus::GridMismatch));
    assert_eq!(check_len(12, 12), Ok(()));
}

#[test]
fn schrodinger_step_count_and_particle_checks() {
    assert_eq!(status_of(validate_schrodinger_steps(0)), SemiflowStatus::OutOfDomain);
    assert_eq!(status_of(validate_schrodinger_steps(1)), SemiflowStatus::Success);
    assert_eq!(validate_dimension(2, 1), Err(SemiflowStatus::Unsupported));
    assert_eq!(validate_dimension(1, 1), Ok(()));
    assert_eq!(validate_particle_count(0), Err(SemiflowStatus::GridMismatch));
    assert_eq!(validate_particle_count(3), Ok(()));
}
