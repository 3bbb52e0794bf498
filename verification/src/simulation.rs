//! The simulation driver.

use vstd::prelude::*;
use crate::arithmetic::Arithmetic;
use crate::dynamics::{compute_control, is_control, is_update, update_state};
use crate::trajectory::{max_rows, Trajectory};
use crate::vector::Vector2;

verus! {

/// `next` follows `state` in one step: some control that the law gives in
/// `state`, applied for `dt`, leads from `state` to `next`.
pub open spec fn is_step<A, S, M>(
    arith: &Arithmetic<A, S, M>,
    goal: Vector2,
    dt: u64,
    state: Vector2,
    next: Vector2,
) -> bool where A: Fn(u64, u64) -> u64, S: Fn(u64, u64) -> u64, M: Fn(u64, u64) -> u64 {
    exists|u: Vector2| #[trigger] is_control(arith, goal, state, u) && is_update(arith, state, u, dt, next)
}

/// `rows` is a run of `num_steps` steps from `start`: it has `num_steps + 1`
/// rows, the first is `start`, and each later row follows the one before it
/// in one step.
pub open spec fn is_run<A, S, M>(
    arith: &Arithmetic<A, S, M>,
    start: Vector2,
    goal: Vector2,
    dt: u64,
    num_steps: nat,
    rows: Seq<Vector2>,
) -> bool where A: Fn(u64, u64) -> u64, S: Fn(u64, u64) -> u64, M: Fn(u64, u64) -> u64 {
    &&& rows.len() == num_steps + 1
    &&& rows[0] == start
    &&& forall|k: int| 0 <= k < num_steps ==> is_step(arith, goal, dt, #[trigger] rows[k], rows[k + 1])
}

/// Runs `num_steps` steps from `start` toward `goal`, each of length `dt`,
/// and returns every state on the way, `start` included.
///
/// No input is turned away for its value: a `dt` of any sign or size and a
/// run of no steps are simulated as given. Only a run too long for its
/// buffer to be allocated is left out.
pub fn simulate<A, S, M>(
    start: Vector2,
    goal: Vector2,
    dt: u64,
    num_steps: usize,
    arith: &Arithmetic<A, S, M>,
) -> (history: Trajectory) where
    A: Fn(u64, u64) -> u64,
    S: Fn(u64, u64) -> u64,
    M: Fn(u64, u64) -> u64,

    requires
        arith.total(),
        num_steps < max_rows(),
    ensures
        is_run(arith, start, goal, dt, num_steps as nat, history@),
        history@.len() == num_steps + 1,
        history@[0] == start,
        num_steps == 0 ==> history@ == seq![start],
{
    let mut history = Trajectory::with_start(start, num_steps);
    let mut state = start;
    for k in 0..num_steps
        invariant
            arith.total(),
            history@.len() == num_steps + 1,
            history@[0] == start,
            history@[k as int] == state,
            forall|i: int| 0 <= i < k ==> is_step(arith, goal, dt, #[trigger] history@[i], history@[i + 1]),
    {
        let control = compute_control(goal, state, arith);
        let next = update_state(state, control, dt, arith);
        history.set_row(k + 1, next);
        state = next;
    }
    assert(num_steps == 0 ==> history@ =~= seq![start]);
    history
}

} // verus!
