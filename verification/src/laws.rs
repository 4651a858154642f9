use vstd::prelude::*;
use vstd::set_lib::{lemma_int_range, lemma_len_subset, set_int_range};

use crate::game::{GameView, step_rel};
use crate::geometry::{Direction, Position, WIDTH, in_interior, interior_cell_count};

verus! {

broadcast use vstd::seq_lib::seq_to_set_is_finite;

/// The row-major index of an interior cell, counted over interior cells only.
pub open spec fn cell_index(p: Position) -> int {
    (p.y - 1) * (WIDTH - 2) + (p.x - 1)
}

/// A sequence of pairwise distinct interior cells can never be longer than
/// the number of interior cells.
pub proof fn lemma_interior_capacity(s: Seq<Position>)
    requires
        s.no_duplicates(),
        forall|i: int| 0 <= i < s.len() ==> in_interior(#[trigger] s[i]),
    ensures
        s.len() <= interior_cell_count(),
{
    let idx = s.map_values(|p: Position| cell_index(p));
    assert(idx.len() == s.len());
    assert forall|i: int, j: int|
        0 <= i < idx.len() && 0 <= j < idx.len() && i != j implies idx[i] != idx[j] by {
        let p = s[i];
        let q = s[j];
        assert(in_interior(p));
        assert(in_interior(q));
        assert(p != q);
        if cell_index(p) == cell_index(q) {
            assert(p.y == q.y);
            assert(p.x == q.x);
            assert(false);
        }
    }
    assert(idx.no_duplicates());
    idx.unique_seq_to_set();
    assert forall|e: int| idx.to_set().contains(e) implies set_int_range(
        0,
        interior_cell_count(),
    ).contains(e) by {
        let i = choose|i: int| 0 <= i < idx.len() && idx[i] == e;
        assert(in_interior(s[i]));
        assert(0 <= cell_index(s[i]) < interior_cell_count());
    }
    lemma_int_range(0, interior_cell_count());
    lemma_len_subset(idx.to_set(), set_int_range(0, interior_cell_count()));
}

/// Pigeonhole direction of the capacity bound: a sequence that covers every
/// interior cell is at least as long as the interior.
pub proof fn lemma_interior_coverage(s: Seq<Position>)
    requires
        forall|q: Position| in_interior(q) ==> s.contains(q),
    ensures
        s.len() >= interior_cell_count(),
{
    let idx = s.map_values(|p: Position| cell_index(p));
    assert(idx.len() == s.len());
    assert(interior_cell_count() == 684);
    assert forall|k: int| set_int_range(0, interior_cell_count()).contains(k) implies idx.to_set()
        .contains(k) by {
        let p = Position { x: (k % 38 + 1) as u16, y: (k / 38 + 1) as u16 };
        assert(0 <= k % 38 < 38);
        assert(0 <= k / 38 < 18);
        assert(in_interior(p));
        assert(cell_index(p) == k);
        assert(s.contains(p));
        let i = choose|i: int| 0 <= i < s.len() && s[i] == p;
        assert(idx[i] == k);
        assert(idx.contains(k));
    }
    lemma_int_range(0, interior_cell_count());
    lemma_len_subset(set_int_range(0, interior_cell_count()), idx.to_set());
    idx.lemma_cardinality_of_set();
}

/// In every well-formed state the snake has between one segment and a full
/// interior of segments, and every segment lies strictly inside the border.
pub proof fn lemma_state_bounds(v: GameView)
    requires
        v.wf(),
    ensures
        1 <= v.snake.len() <= interior_cell_count(),
        forall|i: int| 0 <= i < v.snake.len() ==> in_interior(#[trigger] v.snake[i]),
{
    lemma_interior_capacity(v.snake);
}

/// A request for the exact reverse of the current direction changes nothing,
/// and the buffered direction — the direction the next tick commits — is
/// never the reverse of the current one in a well-formed state.  So a tick
/// right after such a request cannot turn the snake back on itself.
pub proof fn lemma_anti_reversal(v: GameView, d: Direction)
    requires
        v.wf(),
        d == v.direction.opposite(),
    ensures
        v.requested(d) == v,
        v.requested(d).next_direction != v.direction.opposite(),
{
}

/// A tick that meets no food keeps the length, the score and the food, and
/// shifts the body one cell: the head advances in the committed direction
/// and every other segment moves to where its predecessor was.
pub proof fn lemma_advance_shifts_body(v: GameView)
    requires
        1 <= v.snake.len(),
    ensures
        v.advanced().snake.len() == v.snake.len(),
        v.advanced().snake[0] == v.moved_head(),
        forall|i: int| 1 <= i < v.snake.len() ==> v.advanced().snake[i] == v.snake[i - 1],
        v.advanced().score == v.score,
        v.advanced().food == v.food,
        v.advanced().direction == v.next_direction,
        v.advanced().game_over == v.game_over,
{
}

/// One tick never lowers the score.
pub proof fn lemma_step_score_monotone(pre: GameView, post: GameView)
    requires
        step_rel(pre, post),
    ensures
        post.score >= pre.score,
{
}

/// Across any sequence of states in which each follows its predecessor by
/// one tick, the score never decreases.
pub proof fn lemma_score_monotone(trace: Seq<GameView>)
    requires
        forall|i: int| 0 <= i < trace.len() - 1 ==> #[trigger] step_rel(trace[i], trace[i + 1]),
    ensures
        forall|i: int, j: int| 0 <= i <= j < trace.len() ==> trace[i].score <= trace[j].score,
{
    assert forall|i: int, j: int|
        0 <= i <= j < trace.len() implies trace[i].score <= trace[j].score by {
        lemma_score_chain(trace, i, j);
    }
}

proof fn lemma_score_chain(trace: Seq<GameView>, i: int, j: int)
    requires
        forall|k: int| 0 <= k < trace.len() - 1 ==> #[trigger] step_rel(trace[k], trace[k + 1]),
        0 <= i <= j < trace.len(),
    ensures
        trace[i].score <= trace[j].score,
    decreases j - i,
{
    if i < j {
        lemma_score_chain(trace, i, j - 1);
        assert(step_rel(trace[j - 1], trace[(j - 1) + 1]));
        lemma_step_score_monotone(trace[j - 1], trace[j]);
    }
}

/// Requesting the reverse of the current direction and then ticking cannot
/// turn the snake back on itself: the tick commits the direction that was
/// buffered before the request, never the reverse of the one travelled.
pub proof fn lemma_anti_reversal_step(v: GameView, d: Direction, w: GameView)
    requires
        v.wf(),
        !v.game_over,
        d == v.direction.opposite(),
        step_rel(v.requested(d), w),
    ensures
        w.direction == v.next_direction,
        w.direction != v.direction.opposite(),
{
    lemma_anti_reversal(v, d);
}

/// A fatal move only ends the session and commits the buffered direction:
/// snake, food and score are exactly what they were before the tick.
pub proof fn lemma_crash_preserves_state(v: GameView)
    ensures
        v.crashed().game_over,
        v.crashed().snake == v.snake,
        v.crashed().food == v.food,
        v.crashed().score == v.score,
        v.crashed().direction == v.next_direction,
        v.crashed().next_direction == v.next_direction,
{
}

} // verus!
