use semiflow_ffi::gate::{
    aniso_new_plan, check_finite, check_tau_steps, checked_product, gate, len_matches_product,
    parse_optional, zeros, AnisoInputs, GateOrder, LenCheck, LenRule, OptionalInput,
};
use semiflow_ffi::SemiflowStatus;

fn exact(len: usize, expected: usize) -> LenCheck {
    LenCheck { len, expected, rule: LenRule::Exact }
}

fn at_least(len: usize, expected: usize) -> LenCheck {
    LenCheck { len, expected, rule: LenRule::AtLeast }
}

#[test]
fn null_pointer_wins_over_everything() {
    assert_eq!(gate(false, &[exact(1, 2)], false, GateOrder::LengthsFirst), Err(SemiflowStatus::NullPtr));
    assert_eq!(gate(false, &[exact(1, 2)], false, GateOrder::DomainFirst), Err(SemiflowStatus::NullPtr));
}

#[test]
fn gate_order_decides_between_length_and_domain() {
    let lens = [exact(3, 4)];
    assert_eq!(gate(true, &lens, false, GateOrder::LengthsFirst), Err(SemiflowStatus::GridMismatch));
    assert_eq!(gate(true, &lens, false, GateOrder::DomainFirst), Err(SemiflowStatus::OutOfDomain));
    assert_eq!(gate(true, &[exact(4, 4)], false, GateOrder::LengthsFirst), Err(SemiflowStatus::OutOfDomain));
    assert_eq!(gate(true, &[exact(4, 4)], true, GateOrder::LengthsFirst), Ok(()));
}

#[test]
fn length_rules() {
    assert_eq!(gate(true, &[at_least(5, 4)], true, GateOrder::LengthsFirst), Ok(()));
    assert_eq!(gate(true, &[exact(5, 4)], true, GateOrder::LengthsFirst), Err(SemiflowStatus::GridMismatch));
    assert_eq!(gate(true, &[at_least(3, 4)], true, GateOrder::LengthsFirst), Err(SemiflowStatus::GridMismatch));
    assert_eq!(
        gate(true, &[exact(4, 4), at_least(3, 4)], true, GateOrder::LengthsFirst),
        Err(SemiflowStatus::GridMismatch)
    );
    assert_eq!(gate(true, &[], true, GateOrder::DomainFirst), Ok(()));
}

#[test]
fn tau_and_steps() {
    assert_eq!(check_tau_steps(0, true), Err(SemiflowStatus::OutOfDomain));
    assert_eq!(check_tau_steps(3, false), Err(SemiflowStatus::OutOfDomain));
    assert_eq!(check_tau_steps(3, true), Ok(()));
    assert_eq!(check_finite(false), Err(SemiflowStatus::NanInf));
    assert_eq!(check_finite(true), Ok(()));
}

#[test]
fn products() {
    assert_eq!(checked_product(4, &[3, 5]), Some(60));
    assert_eq!(checked_product(7, &[]), Some(7));
    assert_eq!(checked_product(1, &[usize::MAX, 2]), None);
    // A zero factor makes the product zero even after an overflow.
    assert_eq!(checked_product(1, &[usize::MAX, usize::MAX, 0]), Some(0));
    assert_eq!(checked_product(0, &[usize::MAX, usize::MAX]), Some(0));
    assert!(len_matches_product(60, 4, &[3, 5]));
    assert!(!len_matches_product(59, 4, &[3, 5]));
    assert!(!len_matches_product(usize::MAX, 2, &[usize::MAX]));
}

#[test]
fn optional_buffers() {
    assert_eq!(parse_optional(false, 99, 8), Ok(OptionalInput::Zeros { len: 8 }));
    assert_eq!(parse_optional(true, 7, 8), Err(SemiflowStatus::GridMismatch));
    assert_eq!(parse_optional(true, 8, 8), Ok(OptionalInput::Given));
    assert_eq!(zeros(0.0, 3), vec![0.0, 0.0, 0.0]);
    assert_eq!(zeros(1u8, 0), Vec::<u8>::new());
}

#[test]
fn aniso_nd2_constructor_checks() {
    let dims = [3usize, 2];
    let n = 6;
    let ok = aniso_new_plan(true, &dims, 4 * n, n, false, 0, true, n, true, true);
    assert_eq!(
        ok,
        Ok(AnisoInputs { drift: OptionalInput::Zeros { len: 2 * n }, reaction: OptionalInput::Given })
    );
    assert_eq!(
        aniso_new_plan(false, &dims, 4 * n, n, false, 0, false, 0, true, true),
        Err(SemiflowStatus::NullPtr)
    );
    assert_eq!(
        aniso_new_plan(true, &dims, 4 * n - 1, n, false, 0, false, 0, true, true),
        Err(SemiflowStatus::GridMismatch)
    );
    assert_eq!(
        aniso_new_plan(true, &dims, 4 * n, n, true, n, false, 0, true, true),
        Err(SemiflowStatus::GridMismatch)
    );
    assert_eq!(
        aniso_new_plan(true, &dims, 4 * n, n, true, 2 * n, true, n + 1, true, true),
        Err(SemiflowStatus::GridMismatch)
    );
    assert_eq!(
        aniso_new_plan(true, &dims, 4 * n, n, false, 0, false, 0, true, false),
        Err(SemiflowStatus::NanInf)
    );
}

#[test]
fn aniso_nd3_rejects_non_finite_data_in_either_buffer() {
    let dims = [2usize, 2, 2];
    let n = 8;
    let clean = aniso_new_plan(true, &dims, 9 * n, n, false, 0, false, 0, true, true);
    assert_eq!(
        clean,
        Ok(AnisoInputs { drift: OptionalInput::Zeros { len: 3 * n }, reaction: OptionalInput::Zeros { len: n } })
    );
    assert_eq!(aniso_new_plan(true, &dims, 9 * n, n, false, 0, false, 0, false, true), Err(SemiflowStatus::NanInf));
    assert_eq!(aniso_new_plan(true, &dims, 9 * n, n, false, 0, false, 0, true, false), Err(SemiflowStatus::NanInf));
    assert_eq!(aniso_new_plan(true, &dims, 9 * n, n, false, 0, false, 0, false, false), Err(SemiflowStatus::NanInf));
}

#[test]
fn gate_order_matters_only_when_both_checks_fail() {
    let bad = [exact(3, 4)];
    let good = [at_least(5, 4)];
    for order in [GateOrder::LengthsFirst, GateOrder::DomainFirst] {
        assert_eq!(gate(true, &bad, true, order), Err(SemiflowStatus::GridMismatch));
        assert_eq!(gate(true, &good, false, order), Err(SemiflowStatus::OutOfDomain));
        assert_eq!(gate(true, &good, true, order), Ok(()));
    }
}
