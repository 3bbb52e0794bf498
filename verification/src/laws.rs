//! Laws of the simulation and of the archive, proved from the contracts.

use vstd::prelude::*;
use crate::arithmetic::Arithmetic;
use crate::dynamics::{is_control, is_control_word, is_update, is_update_word, GAIN};
use crate::export::{is_archive_of, ArchiveEntry};
use crate::simulation::{is_run, is_step};
use crate::trajectory::{row_major, xs_of, ys_of};
use crate::vector::Vector2;

verus! {

/// With a deterministic arithmetic the control law gives one word in each
/// coordinate.
pub proof fn lemma_control_word_is_unique<A, S, M>(
    arith: &Arithmetic<A, S, M>,
    goal: u64,
    state: u64,
    first: u64,
    second: u64,
) where A: Fn(u64, u64) -> u64, S: Fn(u64, u64) -> u64, M: Fn(u64, u64) -> u64
    requires
        arith.deterministic(),
        is_control_word(arith, goal, state, first),
        is_control_word(arith, goal, state, second),
    ensures
        first == second,
{
    let d = choose|d: u64| #[trigger]
        arith.is_difference(goal, state, d) && arith.is_product(GAIN, d, first);
    let e = choose|e: u64| #[trigger]
        arith.is_difference(goal, state, e) && arith.is_product(GAIN, e, second);
    assert(d == e);
}

/// With a deterministic arithmetic the state update gives one word in each
/// coordinate.
pub proof fn lemma_update_word_is_unique<A, S, M>(
    arith: &Arithmetic<A, S, M>,
    state: u64,
    control: u64,
    dt: u64,
    first: u64,
    second: u64,
) where A: Fn(u64, u64) -> u64, S: Fn(u64, u64) -> u64, M: Fn(u64, u64) -> u64
    requires
        arith.deterministic(),
        is_update_word(arith, state, control, dt, first),
        is_update_word(arith, state, control, dt, second),
    ensures
        first == second,
{
    let p = choose|p: u64| #[trigger]
        arith.is_product(dt, control, p) && arith.is_sum(state, p, first);
    let q = choose|q: u64| #[trigger]
        arith.is_product(dt, control, q) && arith.is_sum(state, q, second);
    assert(p == q);
}

/// With a deterministic arithmetic a state has one successor: two steps from
/// the same state, toward the same goal and of the same length, end in the
/// same state.
pub proof fn lemma_step_is_unique<A, S, M>(
    arith: &Arithmetic<A, S, M>,
    goal: Vector2,
    dt: u64,
    state: Vector2,
    first: Vector2,
    second: Vector2,
) where A: Fn(u64, u64) -> u64, S: Fn(u64, u64) -> u64, M: Fn(u64, u64) -> u64
    requires
        arith.deterministic(),
        is_step(arith, goal, dt, state, first),
        is_step(arith, goal, dt, state, second),
    ensures
        first == second,
{
    let u = choose|u: Vector2| #[trigger]
        is_control(arith, goal, state, u) && is_update(arith, state, u, dt, first);
    let v = choose|v: Vector2| #[trigger]
        is_control(arith, goal, state, v) && is_update(arith, state, v, dt, second);
    lemma_control_word_is_unique(arith, goal.x, state.x, u.x, v.x);
    lemma_control_word_is_unique(arith, goal.y, state.y, u.y, v.y);
    assert(u == v);
    lemma_update_word_is_unique(arith, state.x, u.x, dt, first.x, second.x);
    lemma_update_word_is_unique(arith, state.y, u.y, dt, first.y, second.y);
}

/// Two runs from the same inputs agree in row `k`.
proof fn lemma_runs_agree_in_row<A, S, M>(
    arith: &Arithmetic<A, S, M>,
    start: Vector2,
    goal: Vector2,
    dt: u64,
    num_steps: nat,
    first: Seq<Vector2>,
    second: Seq<Vector2>,
    k: nat,
) where A: Fn(u64, u64) -> u64, S: Fn(u64, u64) -> u64, M: Fn(u64, u64) -> u64
    requires
        arith.deterministic(),
        is_run(arith, start, goal, dt, num_steps, first),
        is_run(arith, start, goal, dt, num_steps, second),
        k <= num_steps,
    ensures
        first[k as int] == second[k as int],
    decreases k,
{
    if k > 0 {
        let j = k - 1;
        lemma_runs_agree_in_row(arith, start, goal, dt, num_steps, first, second, j as nat);
        assert(is_step(arith, goal, dt, first[j], first[j + 1]));
        assert(is_step(arith, goal, dt, second[j], second[j + 1]));
        lemma_step_is_unique(arith, goal, dt, first[j], first[j + 1], second[j + 1]);
    }
}

/// Determinism: with a deterministic arithmetic, two runs with the same
/// start, goal, step length and number of steps are the same trajectory.
pub proof fn lemma_run_is_unique<A, S, M>(
    arith: &Arithmetic<A, S, M>,
    start: Vector2,
    goal: Vector2,
    dt: u64,
    num_steps: nat,
    first: Seq<Vector2>,
    second: Seq<Vector2>,
) where A: Fn(u64, u64) -> u64, S: Fn(u64, u64) -> u64, M: Fn(u64, u64) -> u64
    requires
        arith.deterministic(),
        is_run(arith, start, goal, dt, num_steps, first),
        is_run(arith, start, goal, dt, num_steps, second),
    ensures
        first == second,
{
    assert forall|k: int| 0 <= k < first.len() implies first[k] == second[k] by {
        lemma_runs_agree_in_row(arith, start, goal, dt, num_steps, first, second, k as nat);
    }
    assert(first =~= second);
}

/// Each row depends on the row before it and on nothing else: the first
/// `k + 1` rows of a run are themselves a run, of `k` steps.
pub proof fn lemma_run_prefix_is_run<A, S, M>(
    arith: &Arithmetic<A, S, M>,
    start: Vector2,
    goal: Vector2,
    dt: u64,
    num_steps: nat,
    rows: Seq<Vector2>,
    k: nat,
) where A: Fn(u64, u64) -> u64, S: Fn(u64, u64) -> u64, M: Fn(u64, u64) -> u64
    requires
        is_run(arith, start, goal, dt, num_steps, rows),
        k <= num_steps,
    ensures
        is_run(arith, start, goal, dt, k, rows.take(k as int + 1)),
{
    let head = rows.take(k as int + 1);
    assert forall|i: int| 0 <= i < k implies is_step(arith, goal, dt, #[trigger] head[i], head[i + 1]) by {
        assert(is_step(arith, goal, dt, rows[i], rows[i + 1]));
    }
}

/// A run of no steps is the single row `start`, whatever the goal, the step
/// length and the arithmetic, and each column of its archive has one item.
pub proof fn lemma_run_of_no_steps<A, S, M>(
    arith: &Arithmetic<A, S, M>,
    start: Vector2,
    goal: Vector2,
    dt: u64,
    rows: Seq<Vector2>,
    entries: Seq<ArchiveEntry>,
) where A: Fn(u64, u64) -> u64, S: Fn(u64, u64) -> u64, M: Fn(u64, u64) -> u64
    requires
        is_run(arith, start, goal, dt, 0, rows),
        is_archive_of(entries, rows),
    ensures
        rows == seq![start],
        entries[1].words@ == seq![start.x],
        entries[2].words@ == seq![start.y],
{
    assert(rows =~= seq![start]);
    assert(xs_of(rows) =~= seq![start.x]);
    assert(ys_of(rows) =~= seq![start.y]);
}

/// Column consistency: in the archive of a trajectory, item `i` of `x` is
/// the word in row `i`, column 0 of `trajectory`, and item `i` of `y` the
/// word in row `i`, column 1.
pub proof fn lemma_archive_columns_agree(entries: Seq<ArchiveEntry>, rows: Seq<Vector2>, i: int)
    requires
        is_archive_of(entries, rows),
        0 <= i < rows.len(),
    ensures
        entries[1].words@.len() == rows.len(),
        entries[2].words@.len() == rows.len(),
        entries[0].words@.len() == 2 * rows.len(),
        entries[1].words@[i] == entries[0].words@[2 * i],
        entries[2].words@[i] == entries[0].words@[2 * i + 1],
        entries[1].words@[i] == rows[i].x,
        entries[2].words@[i] == rows[i].y,
{
}

/// The `trajectory` array of an archive loses nothing: two buffers with the
/// same words in row-major order have the same rows, bit for bit.
pub proof fn lemma_row_major_determines_rows(first: Seq<Vector2>, second: Seq<Vector2>)
    requires
        row_major(first) == row_major(second),
    ensures
        first == second,
{
    assert(row_major(first).len() == 2 * first.len());
    assert(row_major(second).len() == 2 * second.len());
    assert forall|i: int| 0 <= i < first.len() implies first[i] == second[i] by {
        assert(row_major(first)[2 * i] == first[i].x);
        assert(row_major(second)[2 * i] == second[i].x);
        assert(row_major(first)[2 * i + 1] == first[i].y);
        assert(row_major(second)[2 * i + 1] == second[i].y);
    }
    assert(first =~= second);
}

/// The `x` and `y` arrays of an archive together lose nothing either: two
/// buffers with the same columns have the same rows.
pub proof fn lemma_columns_determine_rows(first: Seq<Vector2>, second: Seq<Vector2>)
    requires
        xs_of(first) == xs_of(second),
        ys_of(first) == ys_of(second),
    ensures
        first == second,
{
    assert(xs_of(first).len() == first.len());
    assert(xs_of(second).len() == second.len());
    assert forall|i: int| 0 <= i < first.len() implies first[i] == second[i] by {
        assert(xs_of(first)[i] == first[i].x);
        assert(xs_of(second)[i] == second[i].x);
        assert(ys_of(first)[i] == first[i].y);
        assert(ys_of(second)[i] == second[i].y);
    }
    assert(first =~= second);
}

} // verus!
