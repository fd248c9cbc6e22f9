use semiflow_ffi::coupling::{coupled_new_null_check, coupled_walls, decode_coupling, decode_pairs, pair_adjacent, CouplingPlan};
use semiflow_ffi::select::{
    adaptive_kernel, adjoint_is_self_adjoint, adjoint_kernel, kernel_from_name, laplacian_kind_from_i32,
    manifold_from_tag, manifold_uses_radius, reduction_from_tag, subordinator_from_tag, KernelChoice,
    LaplacianKind, ManifoldKind, ParticleReduction, SubordinatorKind,
};
use semiflow_ffi::status::ErrorKind;
use semiflow_ffi::SemiflowStatus;

#[test]
fn kernel_names() {
    assert_eq!(kernel_from_name(Some("heat2")), Some(KernelChoice::Heat2));
    assert_eq!(kernel_from_name(Some("heat4")), Some(KernelChoice::Heat4));
    assert_eq!(kernel_from_name(Some("heat6")), Some(KernelChoice::Heat6));
    assert_eq!(kernel_from_name(Some("drift")), Some(KernelChoice::Drift));
    assert_eq!(kernel_from_name(Some("shift")), Some(KernelChoice::Shift));
    assert_eq!(kernel_from_name(Some("heat8")), None);
    assert_eq!(kernel_from_name(Some("Heat2")), None);
    assert_eq!(kernel_from_name(Some("heat2 ")), None);
    assert_eq!(kernel_from_name(Some("")), None);
    // A name that is not UTF-8 falls back to heat2.
    assert_eq!(kernel_from_name(None), Some(KernelChoice::Heat2));
}

#[test]
fn unknown_kernel_is_out_of_domain() {
    let e = adjoint_kernel(Some("wave")).unwrap_err();
    assert!(matches!(e, ErrorKind::DomainViolation { value_is_finite: true, .. }));
    assert_eq!(SemiflowStatus::from_error(&e), SemiflowStatus::OutOfDomain);
    let e = adaptive_kernel(Some("wave")).unwrap_err();
    assert_eq!(SemiflowStatus::from_error(&e), SemiflowStatus::OutOfDomain);
    assert_eq!(adaptive_kernel(Some("shift")).unwrap(), KernelChoice::Shift);
    assert_eq!(adjoint_kernel(None).unwrap(), KernelChoice::Heat2);
}

#[test]
fn only_drift_follows_the_self_adjoint_flag() {
    assert!(!adjoint_is_self_adjoint(KernelChoice::Drift, false));
    assert!(adjoint_is_self_adjoint(KernelChoice::Drift, true));
    assert!(adjoint_is_self_adjoint(KernelChoice::Heat4, false));
    assert!(adjoint_is_self_adjoint(KernelChoice::Shift, false));
}

#[test]
fn tags() {
    assert_eq!(manifold_from_tag(0), Ok(ManifoldKind::Torus));
    assert_eq!(manifold_from_tag(1), Ok(ManifoldKind::Sphere));
    assert_eq!(manifold_from_tag(2), Ok(ManifoldKind::Hyperbolic));
    assert_eq!(manifold_from_tag(3), Err(SemiflowStatus::Unsupported));
    assert!(!manifold_uses_radius(ManifoldKind::Torus));
    assert!(manifold_uses_radius(ManifoldKind::Sphere));
    assert_eq!(subordinator_from_tag(0), Ok(SubordinatorKind::Stable));
    assert_eq!(subordinator_from_tag(1), Ok(SubordinatorKind::Gamma));
    assert_eq!(subordinator_from_tag(2), Ok(SubordinatorKind::InverseGaussian));
    assert_eq!(subordinator_from_tag(7), Err(SemiflowStatus::Unsupported));
    assert_eq!(laplacian_kind_from_i32(1), LaplacianKind::SymNormalized);
    assert_eq!(laplacian_kind_from_i32(0), LaplacianKind::Combinatorial);
    assert_eq!(laplacian_kind_from_i32(-1), LaplacianKind::Combinatorial);
    assert_eq!(reduction_from_tag(0, 16), Ok(ParticleReduction::WeightedVoronoi { cap: 16 }));
    assert_eq!(reduction_from_tag(0, 0), Err(SemiflowStatus::OutOfDomain));
    assert_eq!(reduction_from_tag(1, 0), Ok(ParticleReduction::GaussianBackground));
    assert_eq!(reduction_from_tag(2, 16), Err(SemiflowStatus::OutOfDomain));
}

#[test]
fn coupling_pairs_first_failure_decides() {
    assert_eq!(decode_pairs(&[0, 1, 1, 2], &[true, true], 2, 3), Ok(vec![(0, 1), (1, 2)]));
    // Pair 0 is out of range, pair 1 has a non-finite strength: pair 0 decides.
    assert_eq!(decode_pairs(&[0, 3, 1, 2], &[true, false], 2, 3), Err(SemiflowStatus::GridMismatch));
    // Within a pair the strength is checked first.
    assert_eq!(decode_pairs(&[0, 3], &[false], 1, 3), Err(SemiflowStatus::NanInf));
    assert_eq!(decode_pairs(&[], &[], 0, 3), Ok(vec![]));
}

#[test]
fn coupling_tags() {
    assert!(matches!(decode_coupling(0, false, &[], &[], 0, 2), Ok(CouplingPlan::Uncoupled)));
    assert!(matches!(decode_coupling(1, true, &[], &[], 0, 2), Ok(CouplingPlan::Tridiagonal)));
    assert!(matches!(decode_coupling(1, false, &[], &[], 0, 2), Err(SemiflowStatus::NanInf)));
    assert!(matches!(decode_coupling(3, true, &[], &[], 0, 2), Err(SemiflowStatus::OutOfDomain)));
    match decode_coupling(2, true, &[1, 0], &[true], 1, 2) {
        Ok(CouplingPlan::Pairs(p)) => assert_eq!(p, vec![(1, 0)]),
        _ => panic!("expected a pair list"),
    }
}

#[test]
fn coupling_walls() {
    assert!(pair_adjacent((2, 3)));
    assert!(pair_adjacent((3, 2)));
    assert!(!pair_adjacent((1, 3)));
    assert!(!pair_adjacent((2, 2)));
    assert_eq!(coupled_walls(false, &CouplingPlan::Uncoupled, &[]), SemiflowStatus::OutOfDomain);
    assert_eq!(coupled_walls(true, &CouplingPlan::Tridiagonal, &[]), SemiflowStatus::Success);
    assert_eq!(coupled_walls(true, &CouplingPlan::Pairs(vec![(0, 1), (2, 1)]), &[true, true]), SemiflowStatus::Success);
    assert_eq!(coupled_walls(true, &CouplingPlan::Pairs(vec![(0, 2)]), &[true]), SemiflowStatus::OutOfDomain);
    assert_eq!(coupled_walls(true, &CouplingPlan::Pairs(vec![(0, 1)]), &[false]), SemiflowStatus::OutOfDomain);
}

#[test]
fn coupled_constructor_pointer_check() {
    assert_eq!(coupled_new_null_check(false, 0, true), SemiflowStatus::NullPtr);
    assert_eq!(coupled_new_null_check(true, 2, false), SemiflowStatus::NullPtr);
    assert_eq!(coupled_new_null_check(true, 1, false), SemiflowStatus::Success);
    assert_eq!(coupled_new_null_check(true, 2, true), SemiflowStatus::Success);
}
