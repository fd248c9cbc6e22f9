use semiflow_ffi::layout::widen_indices;
use semiflow_ffi::sizes::marginal_plan;
use semiflow_ffi::status::ErrorKind;
use semiflow_ffi::stepping::{iterate_steps, iterate_steps_keeping_progress, HeldState};
use semiflow_ffi::SemiflowStatus;

#[test]
fn all_steps_succeed() {
    let double = |_k: usize, x: &u64| -> Result<u64, ErrorKind> { Ok(x * 2) };
    assert_eq!(iterate_steps(&double, 3, 4).ok(), Some(48));
    assert_eq!(iterate_steps(&double, 3, 0).ok(), Some(3));
}

#[test]
fn steps_receive_their_index() {
    let add_index = |k: usize, x: &Vec<usize>| -> Result<Vec<usize>, ErrorKind> {
        let mut v = x.clone();
        v.push(k);
        Ok(v)
    };
    assert_eq!(iterate_steps(&add_index, vec![], 3).ok(), Some(vec![0, 1, 2]));
}

#[test]
fn first_error_stops_the_run() {
    let failing = |k: usize, x: &i32| -> Result<i32, ErrorKind> {
        if k == 2 { Err(ErrorKind::CflViolated) } else { Ok(x + 10) }
    };
    let r = iterate_steps(&failing, 1, 5);
    assert!(matches!(r, Err(ErrorKind::CflViolated)));
}

#[test]
fn progress_is_kept_up_to_the_failing_step() {
    let failing = |k: usize, x: &i32| -> Result<i32, ErrorKind> {
        if k == 2 { Err(ErrorKind::ConvergenceFailed) } else { Ok(x + 10) }
    };
    let r = iterate_steps_keeping_progress(&failing, 1, 5);
    assert_eq!(r.state, 21);
    assert_eq!(r.completed, 2);
    assert_eq!(r.error.map(|e| SemiflowStatus::from_error(&e)), Some(SemiflowStatus::ConvergenceFailed));
    let ok = |_k: usize, x: &i32| -> Result<i32, ErrorKind> { Ok(x - 1) };
    let r = iterate_steps_keeping_progress(&ok, 1, 3);
    assert_eq!((r.state, r.completed), (-2, 3));
    assert!(r.error.is_none());
}

#[test]
fn column_indices_widen() {
    assert_eq!(widen_indices(&[0, 7, u32::MAX]), vec![0usize, 7, u32::MAX as usize]);
    assert_eq!(widen_indices(&[]), Vec::<usize>::new());
}

#[test]
fn marginal_reports_the_needed_capacity() {
    assert_eq!(marginal_plan(1, 1, 10, 3), (Err(SemiflowStatus::OutOfDomain), None));
    assert_eq!(marginal_plan(0, 1, 2, 3), (Err(SemiflowStatus::GridMismatch), Some(3)));
    assert_eq!(marginal_plan(0, 1, 3, 3), (Ok(()), Some(3)));
}

#[test]
fn held_state_is_replaced_only_after_every_step_succeeds() {
    let step = |k: usize, x: &Vec<u32>| -> Result<Vec<u32>, ErrorKind> {
        if k == 2 {
            Err(ErrorKind::CflViolated)
        } else {
            let mut v = x.clone();
            v.push(k as u32);
            Ok(v)
        }
    };
    let mut held = HeldState::new(vec![9u32]);
    assert_eq!(held.evolve_with(&step, 2), SemiflowStatus::Success);
    assert_eq!(held.value(), &vec![9, 0, 1]);
    // Step 2 fails: the held state keeps what it had before the run.
    assert_eq!(held.evolve_with(&step, 4), SemiflowStatus::CflViolated);
    assert_eq!(held.value(), &vec![9, 0, 1]);
    // No steps leave it as it is.
    assert_eq!(held.evolve_with(&step, 0), SemiflowStatus::Success);
    assert_eq!(held.value(), &vec![9, 0, 1]);
    *held.value_mut() = vec![1];
    assert_eq!(held.value(), &vec![1]);
}
