//! The control law and the state update.

use vstd::prelude::*;
use crate::arithmetic::Arithmetic;
use crate::vector::Vector2;

verus! {

/// The feedback gain, the number two as a binary64 word.
pub const GAIN: u64 = 0x4000_0000_0000_0000;

/// `u` is the gain times the difference of `goal` and `state`, in one
/// coordinate.
pub open spec fn is_control_word<A, S, M>(
    arith: &Arithmetic<A, S, M>,
    goal: u64,
    state: u64,
    u: u64,
) -> bool where A: Fn(u64, u64) -> u64, S: Fn(u64, u64) -> u64, M: Fn(u64, u64) -> u64 {
    exists|d: u64| #[trigger] arith.is_difference(goal, state, d) && arith.is_product(GAIN, d, u)
}

/// `u` is the control that the proportional law gives in `state`:
/// twice the vector from `state` to `goal`.
pub open spec fn is_control<A, S, M>(
    arith: &Arithmetic<A, S, M>,
    goal: Vector2,
    state: Vector2,
    u: Vector2,
) -> bool where A: Fn(u64, u64) -> u64, S: Fn(u64, u64) -> u64, M: Fn(u64, u64) -> u64 {
    &&& is_control_word(arith, goal.x, state.x, u.x)
    &&& is_control_word(arith, goal.y, state.y, u.y)
}

/// `next` is `state` plus `dt` times `control`, in one coordinate.
pub open spec fn is_update_word<A, S, M>(
    arith: &Arithmetic<A, S, M>,
    state: u64,
    control: u64,
    dt: u64,
    next: u64,
) -> bool where A: Fn(u64, u64) -> u64, S: Fn(u64, u64) -> u64, M: Fn(u64, u64) -> u64 {
    exists|p: u64| #[trigger] arith.is_product(dt, control, p) && arith.is_sum(state, p, next)
}

/// `next` is the state that one forward-Euler step of length `dt` under
/// `control` leads to from `state`.
pub open spec fn is_update<A, S, M>(
    arith: &Arithmetic<A, S, M>,
    state: Vector2,
    control: Vector2,
    dt: u64,
    next: Vector2,
) -> bool where A: Fn(u64, u64) -> u64, S: Fn(u64, u64) -> u64, M: Fn(u64, u64) -> u64 {
    &&& is_update_word(arith, state.x, control.x, dt, next.x)
    &&& is_update_word(arith, state.y, control.y, dt, next.y)
}

/// The control in `state`: the gain times `goal - state`, coordinate by
/// coordinate.
pub fn compute_control<A, S, M>(
    goal: Vector2,
    state: Vector2,
    arith: &Arithmetic<A, S, M>,
) -> (u: Vector2) where A: Fn(u64, u64) -> u64, S: Fn(u64, u64) -> u64, M: Fn(u64, u64) -> u64
    requires
        arith.total(),
    ensures
        is_control(arith, goal, state, u),
{
    let dx: u64 = arith.difference(goal.x, state.x);
    let dy: u64 = arith.difference(goal.y, state.y);
    Vector2 { x: arith.product(GAIN, dx), y: arith.product(GAIN, dy) }
}

/// The state after one step: `state + dt * control`, coordinate by
/// coordinate.
pub fn update_state<A, S, M>(
    state: Vector2,
    control: Vector2,
    dt: u64,
    arith: &Arithmetic<A, S, M>,
) -> (next: Vector2) where A: Fn(u64, u64) -> u64, S: Fn(u64, u64) -> u64, M: Fn(u64, u64) -> u64
    requires
        arith.total(),
    ensures
        is_update(arith, state, control, dt, next),
{
    let px: u64 = arith.product(dt, control.x);
    let py: u64 = arith.product(dt, control.y);
    Vector2 { x: arith.sum(state.x, px), y: arith.sum(state.y, py) }
}

} // verus!
