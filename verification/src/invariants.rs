//! What holds of the ledger and the body units together, and is kept by
//! every turn of the head, every growth and every frame of replay.

use vstd::prelude::*;
use crate::direction::Direction;
use crate::geometry::Point;
use crate::snake::{head_pivot_idx, steered, SnakeBody, SnakeView};
use crate::snake_body::{followed, frame_of, ledger_after, ledger_after_one, reaches, SnakeBodies};

verus! {

/// The body units and the ledger are in step: the units have different
/// places in the spawning order, all below the count of the ledger, and
/// one of them is the tail; every unit targets a turn that is retained or
/// the one that will be recorded next; the tail targets the oldest
/// retained turn; and while there is no unit, no turn was ever recorded.
pub open spec fn in_step(snake: SnakeView, bodies: Seq<SnakeBodies>) -> bool {
    &&& forall|i: int| 0 <= i < bodies.len() ==> (#[trigger] bodies[i]).body.snake_idx < snake.body_count
    &&& forall|i: int, j: int|
        0 <= i < bodies.len() && 0 <= j < bodies.len() && i != j ==> (#[trigger] bodies[i]).body.snake_idx != (
        #[trigger] bodies[j]).body.snake_idx
    &&& snake.body_count > 0 ==> exists|t: int|
        0 <= t < bodies.len() && snake.is_tail((#[trigger] bodies[t]).body.snake_idx as int)
    &&& forall|i: int|
        0 <= i < bodies.len() ==> snake.pivot_offset <= (#[trigger] bodies[i]).body.pivot_idx <= snake.end()
    &&& forall|i: int|
        0 <= i < bodies.len() && snake.is_tail((#[trigger] bodies[i]).body.snake_idx as int)
            ==> bodies[i].body.pivot_idx == snake.pivot_offset
    &&& snake.body_count == 0 ==> snake.end() == 0
}

/// While the units and the ledger are in step, no unit targets a turn
/// that was dropped.
pub proof fn lemma_no_unit_behind_the_ledger(snake: SnakeView, bodies: Seq<SnakeBodies>, i: int)
    requires
        in_step(snake, bodies),
        0 <= i < bodies.len(),
    ensures
        bodies[i].body.pivot_idx >= snake.pivot_offset,
{
}

/// While the units and the ledger are in step, the oldest retained turn
/// is the target of a unit.
pub proof fn lemma_oldest_pivot_is_targeted(snake: SnakeView, bodies: Seq<SnakeBodies>)
    requires
        in_step(snake, bodies),
        snake.pivots.len() > 0,
    ensures
        exists|i: int| 0 <= i < bodies.len() && (#[trigger] bodies[i]).body.pivot_idx == snake.pivot_offset,
{
    let t = choose|t: int| 0 <= t < bodies.len() && snake.is_tail((#[trigger] bodies[t]).body.snake_idx as int);
    assert(bodies[t].body.pivot_idx == snake.pivot_offset);
}

/// A growth keeps the units and the ledger in step: the new unit, last in
/// the spawning order and targeting the oldest retained turn, is the tail.
pub proof fn lemma_growth_keeps_step(snake: SnakeView, bodies: Seq<SnakeBodies>, unit: SnakeBodies)
    requires
        in_step(snake, bodies),
        unit.body.snake_idx == snake.body_count,
        unit.body.pivot_idx == snake.pivot_offset,
    ensures
        in_step(snake.grown(), bodies.push(unit)),
{
    let after = snake.grown();
    let all = bodies.push(unit);
    assert(after.is_tail(all[bodies.len() as int].body.snake_idx as int));
    assert forall|i: int, j: int| 0 <= i < all.len() && 0 <= j < all.len() && i != j implies (#[trigger] all[i]).body.snake_idx
        != (#[trigger] all[j]).body.snake_idx by {
        if i < bodies.len() {
            assert(all[i] == bodies[i]);
        }
        if j < bodies.len() {
            assert(all[j] == bodies[j]);
        }
    }
    assert forall|i: int| 0 <= i < all.len() implies after.pivot_offset <= (#[trigger] all[i]).body.pivot_idx
        <= after.end() by {
        if i < bodies.len() {
            assert(all[i] == bodies[i]);
        }
    }
    assert forall|i: int| 0 <= i < all.len() implies (#[trigger] all[i]).body.snake_idx < after.body_count by {
        if i < bodies.len() {
            assert(all[i] == bodies[i]);
        }
    }
    assert forall|i: int| 0 <= i < all.len() && after.is_tail((#[trigger] all[i]).body.snake_idx as int) implies all[i].body.pivot_idx
        == after.pivot_offset by {
        if i < bodies.len() {
            assert(all[i] == bodies[i]);
        }
    }
}

/// A turn of a head that carries a unit keeps the units and the ledger
/// in step.
pub proof fn lemma_turn_keeps_step(snake: SnakeView, bodies: Seq<SnakeBodies>, body: SnakeBody, center: Point, dir: Direction)
    requires
        in_step(snake, bodies),
        exists|i: int| 0 <= i < bodies.len() && (#[trigger] bodies[i]).body == body,
    ensures
        in_step(steered(snake, Some(body), center, dir), bodies),
{
    let after = steered(snake, Some(body), center, dir);
    assert(after.end() == snake.end() + 1);
    let t = choose|t: int| 0 <= t < bodies.len() && snake.is_tail((#[trigger] bodies[t]).body.snake_idx as int);
    assert(after.is_tail(bodies[t].body.snake_idx as int));
}

/// The first turn of the head, before which nothing was recorded, keeps
/// the units and the ledger in step: the unit that the head takes on
/// is the tail and targets the turn that is being recorded.
pub proof fn lemma_first_turn_keeps_step(
    snake: SnakeView,
    bodies: Seq<SnakeBodies>,
    unit: SnakeBodies,
    center: Point,
    dir: Direction,
)
    requires
        in_step(snake, bodies),
        snake.end() == 0 || snake.pivots.len() == 1,
        unit.body.snake_idx == snake.body_count,
        unit.body.pivot_idx == head_pivot_idx(snake),
    ensures
        in_step(steered(snake, None, center, dir), bodies.push(unit)),
{
    lemma_growth_keeps_step(snake, bodies, unit);
    let grown = snake.grown();
    let after = steered(snake, None, center, dir);
    let all = bodies.push(unit);
    assert(after == grown.recorded(center, dir));
    assert(after.end() == grown.end() + 1);
    assert(after.is_tail(all[bodies.len() as int].body.snake_idx as int));
}

/// Among the first `i` units of `bodies`, the tail has reached its turn.
pub open spec fn tail_turned_before(snake: SnakeView, bodies: Seq<SnakeBodies>, i: int) -> bool {
    exists|t: int|
        0 <= t < i && t < bodies.len() && snake.is_tail((#[trigger] bodies[t]).body.snake_idx as int) && reaches(
            bodies[t],
            snake,
        )
}

/// In a frame that starts in step, the units before the tail are replayed
/// against the ledger as it was, and those after a tail that took its
/// turn against the ledger without its oldest turn.
pub proof fn lemma_ledger_during_frame(snake: SnakeView, bodies: Seq<SnakeBodies>, i: int)
    requires
        in_step(snake, bodies),
        0 <= i <= bodies.len(),
    ensures
        ledger_after(bodies.take(i), snake) == if tail_turned_before(snake, bodies, i) {
            snake.evicted()
        } else {
            snake
        },
    decreases i,
{
    if i == 0 {
        assert(bodies.take(0).len() == 0);
    } else {
        lemma_ledger_during_frame(snake, bodies, i - 1);
        let unit = bodies[i - 1];
        assert(bodies.take(i).drop_last() == bodies.take(i - 1));
        assert(bodies.take(i).last() == unit);
        let prior = ledger_after(bodies.take(i - 1), snake);
        assert(ledger_after(bodies.take(i), snake) == ledger_after_one(unit, prior));
        if tail_turned_before(snake, bodies, i - 1) {
            let t = choose|t: int|
                0 <= t < i - 1 && t < bodies.len() && snake.is_tail((#[trigger] bodies[t]).body.snake_idx as int)
                    && reaches(bodies[t], snake);
            assert(bodies[t].body.snake_idx != bodies[i - 1].body.snake_idx);
            assert(!prior.is_tail(unit.body.snake_idx as int));
            assert(tail_turned_before(snake, bodies, i));
        } else {
            if snake.is_tail(unit.body.snake_idx as int) && reaches(unit, snake) {
                assert(tail_turned_before(snake, bodies, i));
            } else {
                assert(!tail_turned_before(snake, bodies, i)) by {
                    if tail_turned_before(snake, bodies, i) {
                        let t = choose|t: int|
                            0 <= t < i && t < bodies.len() && snake.is_tail(
                                (#[trigger] bodies[t]).body.snake_idx as int,
                            ) && reaches(bodies[t], snake);
                        if t < i - 1 {
                            assert(tail_turned_before(snake, bodies, i - 1));
                        }
                    }
                }
            }
        }
    }
}

/// When the tail reaches its turn in this frame, no other unit is left
/// behind: every other unit targets a later turn already, or comes
/// before the tail in `bodies` and reaches its turn in this frame too.
pub open spec fn tail_turns_last(snake: SnakeView, bodies: Seq<SnakeBodies>) -> bool {
    forall|t: int, j: int|
        0 <= t < bodies.len() && 0 <= j < bodies.len() && j != t && snake.is_tail(
            (#[trigger] bodies[t]).body.snake_idx as int,
        ) && reaches(bodies[t], snake) ==> (#[trigger] bodies[j]).body.pivot_idx > snake.pivot_offset || (j < t
            && reaches(bodies[j], snake))
}

/// A frame of replay in which the tail turns last keeps the units and
/// the ledger in step.
pub proof fn lemma_frame_keeps_step(snake: SnakeView, bodies: Seq<SnakeBodies>, speed: i32, after: Seq<SnakeBodies>)
    requires
        in_step(snake, bodies),
        tail_turns_last(snake, bodies),
        frame_of(snake, bodies, speed, after),
    ensures
        in_step(ledger_after(bodies, snake), after),
{
    let n = bodies.len() as int;
    let fin = ledger_after(bodies, snake);
    assert(bodies.take(n) == bodies);
    lemma_ledger_during_frame(snake, bodies, n);
    assert forall|i: int| 0 <= i < n implies {
        &&& (#[trigger] after[i]).body.snake_idx == bodies[i].body.snake_idx
        &&& fin.pivot_offset <= after[i].body.pivot_idx <= fin.end()
        &&& (fin.is_tail(after[i].body.snake_idx as int) ==> after[i].body.pivot_idx == fin.pivot_offset)
    } by {
        lemma_ledger_during_frame(snake, bodies, i);
        let now = ledger_after(bodies.take(i), snake);
        assert(followed(bodies[i], now, speed, after[i]));
        assert(snake.pivot_offset <= bodies[i].body.pivot_idx <= snake.end());
        if tail_turned_before(snake, bodies, n) {
            let t = choose|t: int|
                0 <= t < n && t < bodies.len() && snake.is_tail((#[trigger] bodies[t]).body.snake_idx as int)
                    && reaches(bodies[t], snake);
            assert(bodies[t].body.pivot_idx == snake.pivot_offset);
            if i == t {
                assert(!tail_turned_before(snake, bodies, i)) by {
                    if tail_turned_before(snake, bodies, i) {
                        let u = choose|u: int|
                            0 <= u < i && u < bodies.len() && snake.is_tail(
                                (#[trigger] bodies[u]).body.snake_idx as int,
                            ) && reaches(bodies[u], snake);
                        assert(bodies[u].body.snake_idx != bodies[t].body.snake_idx);
                    }
                }
            } else {
                assert(bodies[i].body.snake_idx != bodies[t].body.snake_idx);
                assert(bodies[i].body.pivot_idx > snake.pivot_offset || (i < t && reaches(bodies[i], snake)));
                if i < t {
                    assert(!tail_turned_before(snake, bodies, i)) by {
                        if tail_turned_before(snake, bodies, i) {
                            let u = choose|u: int|
                                0 <= u < i && u < bodies.len() && snake.is_tail(
                                    (#[trigger] bodies[u]).body.snake_idx as int,
                                ) && reaches(bodies[u], snake);
                            assert(bodies[u].body.snake_idx != bodies[t].body.snake_idx);
                        }
                    }
                } else {
                    assert(tail_turned_before(snake, bodies, i));
                }
            }
        } else {
            assert(!tail_turned_before(snake, bodies, i)) by {
                if tail_turned_before(snake, bodies, i) {
                    let u = choose|u: int|
                        0 <= u < i && u < bodies.len() && snake.is_tail((#[trigger] bodies[u]).body.snake_idx as int)
                            && reaches(bodies[u], snake);
                    assert(tail_turned_before(snake, bodies, n));
                }
            }
            if snake.is_tail(bodies[i].body.snake_idx as int) {
                assert(!reaches(bodies[i], snake)) by {
                    if reaches(bodies[i], snake) {
                        assert(tail_turned_before(snake, bodies, n));
                    }
                }
            }
        }
    }
    if snake.body_count > 0 {
        let t = choose|t: int| 0 <= t < bodies.len() && snake.is_tail((#[trigger] bodies[t]).body.snake_idx as int);
        assert(fin.is_tail(after[t].body.snake_idx as int));
    }
    assert forall|i: int, j: int| 0 <= i < after.len() && 0 <= j < after.len() && i != j implies (#[trigger] after[i]).body.snake_idx
        != (#[trigger] after[j]).body.snake_idx by {
        assert(bodies[i].body.snake_idx != bodies[j].body.snake_idx);
    }
    assert forall|i: int| 0 <= i < after.len() implies (#[trigger] after[i]).body.snake_idx < fin.body_count by {
        assert(bodies[i].body.snake_idx < snake.body_count);
    }
}

/// A frame of replay in which the tail does not turn last leaves a unit
/// behind the ledger: the unit targets the turn that the tail dropped.
pub proof fn lemma_frame_leaves_unit_behind(
    snake: SnakeView,
    bodies: Seq<SnakeBodies>,
    speed: i32,
    after: Seq<SnakeBodies>,
)
    requires
        in_step(snake, bodies),
        !tail_turns_last(snake, bodies),
        frame_of(snake, bodies, speed, after),
    ensures
        exists|j: int|
            0 <= j < after.len() && (#[trigger] after[j]).body.pivot_idx < ledger_after(bodies, snake).pivot_offset,
{
    let n = bodies.len() as int;
    let (t, j) = choose|t: int, j: int|
        0 <= t < bodies.len() && 0 <= j < bodies.len() && j != t && snake.is_tail(
            (#[trigger] bodies[t]).body.snake_idx as int,
        ) && reaches(bodies[t], snake) && !((#[trigger] bodies[j]).body.pivot_idx > snake.pivot_offset || (j < t
            && reaches(bodies[j], snake)));
    assert(bodies.take(n) == bodies);
    lemma_ledger_during_frame(snake, bodies, n);
    assert(tail_turned_before(snake, bodies, n));
    lemma_ledger_during_frame(snake, bodies, j);
    assert(followed(bodies[j], ledger_after(bodies.take(j), snake), speed, after[j]));
    assert(bodies[j].body.pivot_idx == snake.pivot_offset);
    if j < t {
        assert(!tail_turned_before(snake, bodies, j)) by {
            if tail_turned_before(snake, bodies, j) {
                let u = choose|u: int|
                    0 <= u < j && u < bodies.len() && snake.is_tail((#[trigger] bodies[u]).body.snake_idx as int)
                        && reaches(bodies[u], snake);
                assert(bodies[u].body.snake_idx != bodies[t].body.snake_idx);
            }
        }
    } else {
        assert(tail_turned_before(snake, bodies, j));
    }
    assert(after[j] == bodies[j]);
}

/// The ledger retains a window of `log`, the sequence of all turns that
/// were ever recorded: the retained turn with index `k` is the `k`-th of `log`.
pub open spec fn window_of(snake: SnakeView, log: Seq<(Point, Direction)>) -> bool {
    &&& snake.end() <= log.len()
    &&& forall|k: int| 0 <= k < snake.pivots.len() ==> #[trigger] snake.pivots[k] == log[snake.pivot_offset + k]
}

/// Recording a turn extends the window by that turn.
pub proof fn lemma_record_extends_window(snake: SnakeView, log: Seq<(Point, Direction)>, pos: Point, dir: Direction)
    requires
        window_of(snake, log),
        snake.end() == log.len(),
    ensures
        window_of(snake.recorded(pos, dir), log.push((pos, dir))),
        snake.recorded(pos, dir).end() == log.push((pos, dir)).len(),
{
    let after = snake.recorded(pos, dir);
    assert forall|k: int| 0 <= k < after.pivots.len() implies #[trigger] after.pivots[k] == log.push((pos, dir))[after.pivot_offset
        + k] by {
        if k < snake.pivots.len() {
            assert(after.pivots[k] == snake.pivots[k]);
        }
    }
}

/// Dropping the oldest retained turn, and a growth, leave the ledger a
/// window of the same log.
pub proof fn lemma_evict_keeps_window(snake: SnakeView, log: Seq<(Point, Direction)>)
    requires
        window_of(snake, log),
    ensures
        snake.pivots.len() > 0 ==> window_of(snake.evicted(), log),
        snake.pivots.len() > 0 ==> snake.evicted().end() == snake.end(),
        window_of(snake.grown(), log),
{
    if snake.pivots.len() > 0 {
        let after = snake.evicted();
        assert forall|k: int| 0 <= k < after.pivots.len() implies #[trigger] after.pivots[k] == log[after.pivot_offset
            + k] by {
            assert(after.pivots[k] == snake.pivots[k + 1]);
        }
    }
}

/// A window of a log is a window of every longer log.
pub proof fn lemma_window_of_longer_log(snake: SnakeView, log: Seq<(Point, Direction)>, more: Seq<(Point, Direction)>)
    requires
        window_of(snake, log),
    ensures
        window_of(snake, log + more),
{
    assert forall|k: int| 0 <= k < snake.pivots.len() implies #[trigger] snake.pivots[k] == (log + more)[snake.pivot_offset
        + k] by {
        assert(snake.pivots[k] == log[snake.pivot_offset + k]);
    }
}

/// From one frame to the next the unit stays as it is, or takes the
/// turn of `log` that it targets and targets the one after it.
pub open spec fn replays(before: SnakeBody, after: SnakeBody, log: Seq<(Point, Direction)>) -> bool {
    ||| after == before
    ||| {
        &&& before.pivot_idx < log.len()
        &&& after.direction == log[before.pivot_idx as int].1
        &&& after.snake_idx == before.snake_idx
        &&& after.pivot_idx == before.pivot_idx + 1
    }
}

/// A frame of replay against a window of `log` replays `log`.
pub proof fn lemma_followed_replays(
    before: SnakeBodies,
    snake: SnakeView,
    speed: i32,
    after: SnakeBodies,
    log: Seq<(Point, Direction)>,
)
    requires
        followed(before, snake, speed, after),
        window_of(snake, log),
    ensures
        replays(before.body, after.body, log),
{
    if reaches(before, snake) {
        let k = before.body.pivot_idx - snake.pivot_offset;
        assert(snake.pivots[k] == log[snake.pivot_offset + k]);
    }
}

/// The headings that a unit took on over the frames of `trace`, the
/// sequence of its states from its spawning on, in order.
pub open spec fn headings(trace: Seq<SnakeBody>) -> Seq<Direction>
    decreases trace.len(),
{
    if trace.len() <= 1 {
        Seq::empty()
    } else if trace.last().pivot_idx != trace[trace.len() - 2].pivot_idx {
        headings(trace.drop_last()).push(trace.last().direction)
    } else {
        headings(trace.drop_last())
    }
}

/// The headings of the turns of `log` with the indices from `from` up to,
/// and without, `to`.
pub open spec fn log_headings(log: Seq<(Point, Direction)>, from: int, to: int) -> Seq<Direction> {
    Seq::new((to - from) as nat, |k: int| log[from + k].1)
}

/// A unit skips no turn: the headings that it takes on over time are
/// those of the log from the turn that it targeted when it was spawned,
/// in order and without a gap, up to the turn that it targets now.
pub proof fn lemma_no_skipped_turns(trace: Seq<SnakeBody>, log: Seq<(Point, Direction)>)
    requires
        trace.len() >= 1,
        trace[0].pivot_idx <= log.len(),
        forall|k: int| 0 <= k < trace.len() - 1 ==> replays(#[trigger] trace[k], trace[k + 1], log),
    ensures
        trace[0].pivot_idx <= trace.last().pivot_idx <= log.len(),
        headings(trace) == log_headings(log, trace[0].pivot_idx as int, trace.last().pivot_idx as int),
    decreases trace.len(),
{
    let from = trace[0].pivot_idx as int;
    if trace.len() == 1 {
        assert(headings(trace) =~= log_headings(log, from, from));
    } else {
        let prefix = trace.drop_last();
        let n = trace.len() as int;
        assert forall|k: int| 0 <= k < prefix.len() - 1 implies replays(#[trigger] prefix[k], prefix[k + 1], log) by {
            assert(replays(trace[k], trace[k + 1], log));
        }
        lemma_no_skipped_turns(prefix, log);
        assert(prefix.last() == trace[n - 2]);
        assert(replays(trace[n - 2], trace[n - 2 + 1], log));
        let mid = trace[n - 2].pivot_idx as int;
        if trace.last().pivot_idx != trace[n - 2].pivot_idx {
            assert(log_headings(log, from, mid).push(log[mid].1) =~= log_headings(log, from, mid + 1));
        }
    }
}

} // verus!
