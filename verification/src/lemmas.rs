//! Proved laws of the grid actor: the clamp invariant, boundary behavior
//! of both edge policies, the shape of a jitter step, and the involutive
//! toggles.

use vstd::prelude::*;

use crate::state::GameState;
use crate::state::clamp_axis;
use crate::state::jitter_delta;
use crate::state::spec_mov_x;
use crate::state::spec_mov_y;
use crate::state::spec_toggle_edge;
use crate::state::spec_toggle_jitter;
use crate::state::wf;

verus! {

/// The position after a whole sequence of moves under the stopping
/// policy, starting from `(x, y)` on a grid whose largest cells are
/// `(hix, hiy)`.
pub open spec fn clamp_path(x: int, y: int, hix: int, hiy: int, moves: Seq<(int, int)>) -> (
    int,
    int,
)
    decreases moves.len(),
{
    if moves.len() == 0 {
        (x, y)
    } else {
        clamp_path(
            clamp_axis(x + moves[0].0, hix),
            clamp_axis(y + moves[0].1, hiy),
            hix,
            hiy,
            moves.drop_first(),
        )
    }
}

/// Under the stopping policy the grid invariant survives any sequence of
/// moves: every prefix of the sequence leaves the position between 0 and
/// the largest cell on each axis, whatever the deltas are.
pub proof fn lemma_clamp_path_in_grid(x: int, y: int, hix: int, hiy: int, moves: Seq<(int, int)>)
    requires
        0 <= x <= hix,
        0 <= y <= hiy,
    ensures
        0 <= clamp_path(x, y, hix, hiy, moves).0 <= hix,
        0 <= clamp_path(x, y, hix, hiy, moves).1 <= hiy,
    decreases moves.len(),
{
    if moves.len() > 0 {
        lemma_clamp_path_in_grid(
            clamp_axis(x + moves[0].0, hix),
            clamp_axis(y + moves[0].1, hiy),
            hix,
            hiy,
            moves.drop_first(),
        );
    }
}

/// Under the stopping policy a single `mov` keeps the position inside the
/// grid, whatever the deltas are.
pub proof fn lemma_mov_clamp_in_grid(s: GameState, dx: int, dy: int)
    requires
        wf(s),
        !s.edge_behav,
    ensures
        0 <= spec_mov_x(s, dx) < s.max_x,
        0 <= spec_mov_y(s, dy) < s.max_y,
{
}

/// The stopping policy is idempotent at the boundary: once `x` sits at
/// the right edge, a further `mov(1, 0)` changes nothing, so repeating it
/// changes nothing either.
pub proof fn lemma_clamp_idempotent_at_edge(s: GameState)
    requires
        wf(s),
        !s.edge_behav,
        s.x == s.max_x - 1,
    ensures
        spec_mov_x(s, 1) == s.x,
        spec_mov_y(s, 0) == s.y,
{
}

/// The wrapping policy round-trips across the x edges: a right move from
/// the right edge lands at 0, and a left move from 0 lands at the right
/// edge.
pub proof fn lemma_wrap_round_trip(s: GameState)
    requires
        wf(s),
        s.edge_behav,
    ensures
        s.x == s.max_x - 1 ==> spec_mov_x(s, 1) == 0,
        s.x == 0 ==> spec_mov_x(s, -1) == s.max_x - 1,
{
}

/// Away from the edges, the unit move a jitter draw selects changes
/// exactly one axis by exactly one cell — never both axes and never
/// neither — for every value of the draw. (At an edge this can fail: with
/// the stopping policy at `x == max_x - 1`, a draw with `r % 4 == 0` is
/// absorbed and nothing changes.)
pub proof fn lemma_jitter_changes_one_axis(s: GameState, r: u64)
    requires
        wf(s),
        s.jitter_behav,
        0 < s.x < s.max_x - 1,
        0 < s.y < s.max_y - 1,
    ensures
        ({
            let nx = spec_mov_x(s, jitter_delta(r).0);
            let ny = spec_mov_y(s, jitter_delta(r).1);
            ||| (nx == s.x && (ny == s.y + 1 || ny == s.y - 1))
            ||| (ny == s.y && (nx == s.x + 1 || nx == s.x - 1))
        }),
{
}

/// Toggling the edge policy twice restores the original state.
pub proof fn lemma_toggle_edge_twice(s: GameState)
    ensures
        spec_toggle_edge(spec_toggle_edge(s)) == s,
{
}

/// Toggling the jitter flag twice restores the original state.
pub proof fn lemma_toggle_jitter_twice(s: GameState)
    ensures
        spec_toggle_jitter(spec_toggle_jitter(s)) == s,
{
}

} // verus!
