//! Repeated Chernoff steps. An evolution applies one engine step a given
//! number of times; the step itself is handed in as a closure that makes
//! the engine call, and these drivers decide when to stop and what state
//! to keep.

use vstd::prelude::*;
use crate::status::{ErrorKind, SemiflowStatus, spec_status_of_error};

verus! {

/// `states` is a run of `k` successful steps: each state comes from the
/// previous one by step `i`.
pub open spec fn spec_step_chain<T, F: Fn(usize, &T) -> Result<T, ErrorKind>>(
    step: F,
    states: Seq<T>,
    k: int,
) -> bool {
    &&& states.len() == k + 1
    &&& forall|i: int|
        0 <= i < k ==> #[trigger] step.ensures((i as usize, &states[i]), Ok::<T, ErrorKind>(states[i + 1]))
}

/// Applies `step` to `init` for steps `0..n_steps`, stopping at the first
/// error.
///
/// On success the result is the end of a run of `n_steps` successful
/// steps from `init`; on error, the error is what step `k` returned after
/// `k` successful steps.
pub fn iterate_steps<T, F: Fn(usize, &T) -> Result<T, ErrorKind>>(step: &F, init: T, n_steps: usize) -> (r:
    Result<T, ErrorKind>)
    requires
        forall|i: usize, x: &T| i < n_steps ==> #[trigger] step.requires((i, x)),
    ensures
        match r {
            Ok(v) => exists|states: Seq<T>|
                {
                    &&& spec_step_chain(*step, states, n_steps as int)
                    &&& states[0] == init
                    &&& states[n_steps as int] == v
                },
            Err(e) => exists|states: Seq<T>, k: int|
                {
                    &&& 0 <= k < n_steps
                    &&& spec_step_chain(*step, states, k)
                    &&& states[0] == init
                    &&& step.ensures((k as usize, &states[k]), Err::<T, ErrorKind>(e))
                },
        },
{
    let ghost init_copy = init;
    let mut state = init;
    let ghost mut states: Seq<T> = seq![init_copy];
    let mut k: usize = 0;
    while k < n_steps
        invariant
            forall|i: usize, x: &T| i < n_steps ==> #[trigger] step.requires((i, x)),
            k <= n_steps,
            spec_step_chain(*step, states, k as int),
            states[0] == init_copy,
            init_copy == init,
            states[k as int] == state,
        decreases n_steps - k,
    {
        let outcome = step(k, &state);
        match outcome {
            Ok(next) => {
                proof {
                    let old_states = states;
                    states = states.push(next);
                    assert forall|i: int| 0 <= i < k + 1 implies #[trigger] step.ensures(
                        (i as usize, &states[i]),
                        Ok::<T, ErrorKind>(states[i + 1]),
                    ) by {
                        if i < k {
                            assert(states[i] == old_states[i]);
                            assert(states[i + 1] == old_states[i + 1]);
                        }
                    }
                }
                state = next;
            },
            Err(e) => {
                assert(step.ensures((k as usize, &states[k as int]), Err::<T, ErrorKind>(e)));
                assert(exists|st: Seq<T>, j: int|
                    {
                        &&& 0 <= j < n_steps
                        &&& spec_step_chain(*step, st, j)
                        &&& st[0] == init_copy
                        &&& step.ensures((j as usize, &st[j]), Err::<T, ErrorKind>(e))
                    }) by {
                    assert(spec_step_chain(*step, states, k as int));
                }
                return Err(e);
            },
        }
        k = k + 1;
    }
    Ok(state)
}

/// What a run of steps that keeps its progress ends with: the last state
/// reached, the number of steps that succeeded, and the error that stopped
/// it, if any.
pub struct StepReport<T> {
    pub state: T,
    pub completed: usize,
    pub error: Option<ErrorKind>,
}

/// Applies `step` to `init` for steps `0..n_steps`, keeping every
/// successful step: an error stops the run but the state reached so far is
/// kept.
pub fn iterate_steps_keeping_progress<T, F: Fn(usize, &T) -> Result<T, ErrorKind>>(
    step: &F,
    init: T,
    n_steps: usize,
) -> (r: StepReport<T>)
    requires
        forall|i: usize, x: &T| i < n_steps ==> #[trigger] step.requires((i, x)),
    ensures
        r.completed <= n_steps,
        r.error is None <==> r.completed == n_steps,
        exists|states: Seq<T>|
            {
                &&& spec_step_chain(*step, states, r.completed as int)
                &&& states[0] == init
                &&& states[r.completed as int] == r.state
                &&& (r.error matches Some(e) ==> step.ensures(
                    (r.completed, &states[r.completed as int]),
                    Err::<T, ErrorKind>(e),
                ))
            },
{
    let ghost init_copy = init;
    let mut state = init;
    let ghost mut states: Seq<T> = seq![init_copy];
    let mut k: usize = 0;
    while k < n_steps
        invariant
            forall|i: usize, x: &T| i < n_steps ==> #[trigger] step.requires((i, x)),
            k <= n_steps,
            spec_step_chain(*step, states, k as int),
            states[0] == init_copy,
            init_copy == init,
            states[k as int] == state,
        decreases n_steps - k,
    {
        let outcome = step(k, &state);
        match outcome {
            Ok(next) => {
                proof {
                    let old_states = states;
                    states = states.push(next);
                    assert forall|i: int| 0 <= i < k + 1 implies #[trigger] step.ensures(
                        (i as usize, &states[i]),
                        Ok::<T, ErrorKind>(states[i + 1]),
                    ) by {
                        if i < k {
                            assert(states[i] == old_states[i]);
                            assert(states[i + 1] == old_states[i + 1]);
                        }
                    }
                }
                state = next;
            },
            Err(e) => {
                assert(step.ensures((k as usize, &states[k as int]), Err::<T, ErrorKind>(e)));
                let r = StepReport { state, completed: k, error: Some(e) };
                assert({
                    &&& spec_step_chain(*step, states, r.completed as int)
                    &&& states[0] == init_copy
                    &&& states[r.completed as int] == r.state
                    &&& (r.error matches Some(e2) ==> step.ensures(
                        (r.completed, &states[r.completed as int]),
                        Err::<T, ErrorKind>(e2),
                    ))
                });
                return r;
            },
        }
        k = k + 1;
    }
    StepReport { state, completed: n_steps, error: None }
}

/// A state an engine handle holds and evolves in place, such as a particle
/// measure: an evolution either succeeds in full and replaces it, or fails
/// and leaves it as it was.
pub struct HeldState<T> {
    value: T,
}

impl<T> View for HeldState<T> {
    type V = T;

    closed spec fn view(&self) -> T {
        self.value
    }
}

impl<T> HeldState<T> {
    /// A holder of `value`.
    pub fn new(value: T) -> (h: Self)
        ensures
            h@ == value,
    {
        HeldState { value }
    }

    /// The held state.
    pub fn value(&self) -> (v: &T)
        ensures
            *v == self@,
    {
        &self.value
    }

    /// The held state, for an engine to overwrite in place.
    pub fn value_mut(&mut self) -> (v: &mut T)
        ensures
            *v == old(self)@,
            final(self)@ == *final(v),
    {
        &mut self.value
    }

    /// Applies `step` for steps `0..n_steps` to the held state.
    ///
    /// When every step succeeds the held state becomes the end of that run
    /// (for no steps, it stays); when step `k` fails after `k` successful
    /// steps, the held state is left as it was and the error's status is
    /// returned.
    pub fn evolve_with<F: Fn(usize, &T) -> Result<T, ErrorKind>>(&mut self, step: &F, n_steps: usize) -> (s:
        SemiflowStatus)
        requires
            forall|i: usize, x: &T| i < n_steps ==> #[trigger] step.requires((i, x)),
        ensures
            s == SemiflowStatus::Success ==> exists|states: Seq<T>|
                {
                    &&& spec_step_chain(*step, states, n_steps as int)
                    &&& states[0] == old(self)@
                    &&& states[n_steps as int] == final(self)@
                },
            s != SemiflowStatus::Success ==> {
                &&& final(self)@ == old(self)@
                &&& exists|states: Seq<T>, k: int, e: ErrorKind|
                    {
                        &&& 0 <= k < n_steps
                        &&& spec_step_chain(*step, states, k)
                        &&& states[0] == old(self)@
                        &&& step.ensures((k as usize, &states[k]), Err::<T, ErrorKind>(e))
                        &&& s == spec_status_of_error(e)
                    }
            },
    {
        let ghost start = self.value;
        let ghost mut states: Seq<T> = seq![start];
        let mut cur: Option<T> = None;
        let mut k: usize = 0;
        while k < n_steps
            invariant
                forall|i: usize, x: &T| i < n_steps ==> #[trigger] step.requires((i, x)),
                k <= n_steps,
                self.value == start,
                start == old(self)@,
                spec_step_chain(*step, states, k as int),
                states[0] == start,
                k == 0 <==> cur is None,
                cur matches Some(c) ==> c == states[k as int],
            decreases n_steps - k,
        {
            let outcome = match &cur {
                Some(c) => step(k, c),
                None => step(k, &self.value),
            };
            assert(step.ensures((k as usize, &states[k as int]), outcome));
            match outcome {
                Ok(next) => {
                    proof {
                        let old_states = states;
                        states = states.push(next);
                        assert forall|i: int| 0 <= i < k + 1 implies #[trigger] step.ensures(
                            (i as usize, &states[i]),
                            Ok::<T, ErrorKind>(states[i + 1]),
                        ) by {
                            if i < k {
                                assert(states[i] == old_states[i]);
                                assert(states[i + 1] == old_states[i + 1]);
                            }
                        }
                    }
                    cur = Some(next);
                },
                Err(e) => {
                    let s = SemiflowStatus::from_error(&e);
                    assert(exists|st: Seq<T>, j: int, er: ErrorKind|
                        {
                            &&& 0 <= j < n_steps
                            &&& spec_step_chain(*step, st, j)
                            &&& st[0] == old(self)@
                            &&& step.ensures((j as usize, &st[j]), Err::<T, ErrorKind>(er))
                            &&& s == spec_status_of_error(er)
                        }) by {
                        assert(spec_step_chain(*step, states, k as int));
                    }
                    return s;
                },
            }
            k = k + 1;
        }
        match cur {
            Some(c) => {
                self.value = c;
            },
            None => {},
        }
        SemiflowStatus::Success
    }
}

} // verus!
