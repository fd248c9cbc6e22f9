use semiflow_ffi::engine::{copy_prefix, size_or_zero, FieldState};
use semiflow_ffi::gate::LenRule;
use semiflow_ffi::sizes::{
    check_output_fits, fp_required_capacity, fp_step_gate, replicate, saturating_mul, saturating_pow,
    tensor_grid_size,
};
use semiflow_ffi::status::ErrorKind;
use semiflow_ffi::SemiflowStatus;

#[test]
fn read_copies_into_the_front_of_the_buffer() {
    let s = FieldState::new(vec![1.0, 2.0, 3.0]);
    assert_eq!(s.size(), 3);
    let mut out = vec![0.0; 5];
    assert_eq!(s.read_into(&mut out, LenRule::AtLeast), SemiflowStatus::Success);
    assert_eq!(out, vec![1.0, 2.0, 3.0, 0.0, 0.0]);
}

#[test]
fn failed_read_leaves_the_buffer_alone() {
    let s = FieldState::new(vec![1, 2, 3]);
    let mut out = vec![9; 2];
    assert_eq!(s.read_into(&mut out, LenRule::AtLeast), SemiflowStatus::GridMismatch);
    assert_eq!(out, vec![9, 9]);
    let mut out = vec![9; 4];
    assert_eq!(s.read_into(&mut out, LenRule::Exact), SemiflowStatus::GridMismatch);
    assert_eq!(out, vec![9, 9, 9, 9]);
}

#[test]
fn read_after_successful_evolution_returns_the_new_values() {
    let mut s = FieldState::new(vec![1, 2, 3]);
    assert_eq!(s.commit(Ok(vec![4, 5, 6])), SemiflowStatus::Success);
    let mut out = vec![0; 3];
    assert_eq!(s.read_into(&mut out, LenRule::Exact), SemiflowStatus::Success);
    assert_eq!(out, vec![4, 5, 6]);
}

#[test]
fn failed_evolution_keeps_the_state() {
    let mut s = FieldState::new(vec![1, 2, 3]);
    assert_eq!(s.commit(Err(ErrorKind::CflViolated)), SemiflowStatus::CflViolated);
    assert_eq!(s.values(), &[1, 2, 3]);
    let mut out = vec![0; 3];
    assert_eq!(
        s.commit_into(Err(ErrorKind::DomainViolation { what: "t must be finite", value_is_finite: false }), &mut out),
        SemiflowStatus::NanInf
    );
    assert_eq!(out, vec![0, 0, 0]);
    assert_eq!(s.values(), &[1, 2, 3]);
}

#[test]
fn commit_into_copies_the_result() {
    let mut s = FieldState::new(vec![0.0; 2]);
    let mut out = vec![0.0; 2];
    assert_eq!(s.commit_into(Ok(vec![0.25, 0.75]), &mut out), SemiflowStatus::Success);
    assert_eq!(out, vec![0.25, 0.75]);
    assert_eq!(s.values(), &[0.25, 0.75]);
    // A result of another length cannot be copied: neither the state nor
    // the buffer changes.
    let mut short = vec![0.0; 1];
    assert_eq!(s.commit_into(Ok(vec![1.0, 2.0]), &mut short), SemiflowStatus::Panic);
    assert_eq!(short, vec![0.0]);
    assert_eq!(s.values(), &[0.25, 0.75]);
}

#[test]
fn replace_and_copy_prefix() {
    let mut s = FieldState::new(vec![1u8]);
    s.replace(vec![2, 3]);
    assert_eq!(s.size(), 2);
    let mut dst = vec![0u8; 3];
    copy_prefix(&mut dst, &[7, 8]);
    assert_eq!(dst, vec![7, 8, 0]);
}

#[test]
fn size_of_a_null_handle_is_zero() {
    assert_eq!(size_or_zero(false, 17), 0);
    assert_eq!(size_or_zero(true, 17), 17);
}

#[test]
fn saturating_arithmetic() {
    assert_eq!(saturating_pow(4, 0), 1);
    assert_eq!(saturating_pow(4, 3), 64);
    assert_eq!(saturating_pow(0, 0), 1);
    assert_eq!(saturating_pow(0, 5), 0);
    assert_eq!(saturating_pow(2, 64), usize::MAX);
    assert_eq!(saturating_pow(4, usize::MAX), usize::MAX);
    assert_eq!(saturating_pow(1, usize::MAX), 1);
    assert_eq!(saturating_pow(0, usize::MAX), 0);
    assert_eq!(saturating_mul(usize::MAX, 2), usize::MAX);
    assert_eq!(saturating_mul(6, 7), 42);
    assert_eq!(tensor_grid_size(4, 6), 4096);
    assert_eq!(tensor_grid_size(10, 5), 100_000);
}

#[test]
fn adjoint_fp_capacity_and_gate() {
    assert_eq!(fp_required_capacity(2, 3), 48);
    assert_eq!(fp_required_capacity(40, 1), usize::MAX);
    // A step count beyond u32 still needs the saturated capacity.
    assert_eq!(fp_required_capacity(1 << 32, 1), usize::MAX);
    assert_eq!(fp_step_gate(1 << 32, usize::MAX, 1, 1000), Err(SemiflowStatus::GridMismatch));
    assert_eq!(fp_step_gate(0, 5, 3, 1000), Err(SemiflowStatus::OutOfDomain));
    assert_eq!(fp_step_gate(6, 5, 3, 1000), Err(SemiflowStatus::OutOfDomain));
    assert_eq!(fp_step_gate(2, 5, 3, 47), Err(SemiflowStatus::GridMismatch));
    assert_eq!(fp_step_gate(2, 5, 3, 48), Ok(()));
    assert_eq!(check_output_fits(49, 48), Err(SemiflowStatus::GridMismatch));
    assert_eq!(check_output_fits(48, 48), Ok(()));
}

#[test]
fn howland_slices_start_as_copies() {
    let r = replicate(&[1, 2], 3);
    assert_eq!(r, vec![vec![1, 2], vec![1, 2], vec![1, 2]]);
    assert_eq!(replicate(&[5], 0), Vec::<Vec<i32>>::new());
}
