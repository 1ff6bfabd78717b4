//! The grid actor: a position on a bounded grid, moved by unit (or larger)
//! deltas, with a clamp-or-wrap edge policy and an optional random jitter.

use vstd::prelude::*;

verus! {

/// Cells per grid row.
pub const GRID_WIDTH: i64 = 5;
/// Cells per grid column.
pub const GRID_HEIGHT: i64 = 5;
/// Side length of one cell, in pixels.
pub const BLOCK_SIZE: i64 = 100;
/// Viewport width in pixels.
pub const WINDOW_WIDTH: i64 = GRID_WIDTH * BLOCK_SIZE;
/// Viewport height in pixels.
pub const WINDOW_HEIGHT: i64 = GRID_HEIGHT * BLOCK_SIZE;

/// Movement intent applied at the next slide tick; `Stop` means no movement.
#[derive(Clone, Copy, PartialEq, Eq, Structural, Debug)]
pub enum Direction {
    UpDir,
    DownDir,
    LeftDir,
    RightDir,
    Stop,
}

/// Why construction of a `GameState` was refused.
#[derive(Clone, Copy, PartialEq, Eq, Structural, Debug)]
pub enum GridError {
    /// A grid bound was zero or negative.
    BadBounds,
    /// The starting position lies outside the grid.
    BadStart,
}

/// The moving square and its grid.
#[derive(Clone, Copy, PartialEq, Eq, Structural, Debug)]
pub struct GameState {
    pub x: i64,
    pub y: i64,
    pub max_x: i64,
    pub max_y: i64,
    /// false: movement stops at the edge; true: it wraps around.
    pub edge_behav: bool,
    /// true: `jitter` perturbs the position.
    pub jitter_behav: bool,
    /// Direction of movement at the next slide tick; `Stop` means none.
    pub next_mov: Direction,
    /// Which bound resets `y` when it wraps below the lower edge:
    /// true picks `max_x - 1` (the default, kept as observable behavior),
    /// false picks `max_y - 1` (the symmetric rule).
    pub wrap_y_uses_x_bound: bool,
}

/// `min(max(v, 0), hi)`: the clamped axis value.
pub open spec fn clamp_axis(v: int, hi: int) -> int {
    let raised = if v > 0 { v } else { 0 };
    if raised < hi {
        raised
    } else {
        hi
    }
}

/// One wrap check: past `hi` resets to 0, below 0 resets to `reset`.
pub open spec fn wrap_axis(v: int, hi: int, reset: int) -> int {
    if v > hi {
        0
    } else if v < 0 {
        reset
    } else {
        v
    }
}

/// The x axis after a move by `dx` from position `x0`, under `s`'s policy.
pub open spec fn step_x(s: GameState, x0: int, dx: int) -> int {
    if s.edge_behav {
        wrap_axis(x0 + dx, s.max_x - 1, s.max_x - 1)
    } else {
        clamp_axis(x0 + dx, s.max_x - 1)
    }
}

/// The y axis after a move by `dy` from position `y0`, under `s`'s policy.
pub open spec fn step_y(s: GameState, y0: int, dy: int) -> int {
    if s.edge_behav {
        wrap_axis(
            y0 + dy,
            s.max_y - 1,
            if s.wrap_y_uses_x_bound {
                s.max_x - 1
            } else {
                s.max_y - 1
            },
        )
    } else {
        clamp_axis(y0 + dy, s.max_y - 1)
    }
}

/// The x axis after `mov(dx, _)` on `s`.
pub open spec fn spec_mov_x(s: GameState, dx: int) -> int {
    step_x(s, s.x as int, dx)
}

/// The y axis after `mov(_, dy)` on `s`.
pub open spec fn spec_mov_y(s: GameState, dy: int) -> int {
    step_y(s, s.y as int, dy)
}

/// Both grid bounds are positive.
pub open spec fn bounds_ok(s: GameState) -> bool {
    0 < s.max_x && 0 < s.max_y
}

/// The grid invariant: the position lies strictly inside both bounds.
pub open spec fn wf(s: GameState) -> bool {
    bounds_ok(s) && 0 <= s.x < s.max_x && 0 <= s.y < s.max_y
}

/// What every move preserves: x stays on its axis, and y stays on its axis
/// except that wrapping below the lower edge may park it at `max_x - 1`
/// when the wrap rule reuses the x bound.
pub open spec fn pos_ok(s: GameState) -> bool {
    bounds_ok(s) && 0 <= s.x < s.max_x && 0 <= s.y && (s.y < s.max_y || s.y < s.max_x)
}

/// Everything but the position is equal.
pub open spec fn same_config(a: GameState, b: GameState) -> bool {
    &&& a.max_x == b.max_x
    &&& a.max_y == b.max_y
    &&& a.edge_behav == b.edge_behav
    &&& a.jitter_behav == b.jitter_behav
    &&& a.next_mov == b.next_mov
    &&& a.wrap_y_uses_x_bound == b.wrap_y_uses_x_bound
}

/// `s` with the edge policy flipped.
pub open spec fn spec_toggle_edge(s: GameState) -> GameState {
    GameState { edge_behav: !s.edge_behav, ..s }
}

/// `s` with the jitter flag flipped.
pub open spec fn spec_toggle_jitter(s: GameState) -> GameState {
    GameState { jitter_behav: !s.jitter_behav, ..s }
}

/// The unit move selected by a random draw: `r % 4` picks right, left,
/// down, up, in that order.
pub open spec fn jitter_delta(r: u64) -> (int, int) {
    if r % 4 == 0 {
        (1int, 0int)
    } else if r % 4 == 1 {
        (-1int, 0int)
    } else if r % 4 == 2 {
        (0int, 1int)
    } else {
        (0int, -1int)
    }
}

/// A move of exactly one cell along exactly one axis.
pub open spec fn is_unit_step(dx: int, dy: int) -> bool {
    ||| (dx == 1 && dy == 0)
    ||| (dx == -1 && dy == 0)
    ||| (dx == 0 && dy == 1)
    ||| (dx == 0 && dy == -1)
}

/// Relies on rand::random: one draw from the process-wide generator;
/// nothing is assumed of the value.
#[verifier::external_body]
fn random_u64() -> u64 {
    rand::random::<u64>()
}

impl GameState {
    /// Builds a state at `(x, y)` on a `max_x` by `max_y` grid, refusing
    /// non-positive bounds and out-of-range starting positions.
    pub fn new(x: i64, y: i64, max_x: i64, max_y: i64, edge_behav: bool, jitter_behav: bool) -> (r:
        Result<GameState, GridError>)
        ensures
            r is Ok <==> (0 < max_x && 0 < max_y && 0 <= x < max_x && 0 <= y < max_y),
            !(0 < max_x && 0 < max_y) ==> r == Err::<GameState, GridError>(GridError::BadBounds),
            0 < max_x && 0 < max_y && !(0 <= x < max_x && 0 <= y < max_y) ==> r == Err::<
                GameState,
                GridError,
            >(GridError::BadStart),
            r matches Ok(s) ==> {
                &&& s.x == x
                &&& s.y == y
                &&& s.max_x == max_x
                &&& s.max_y == max_y
                &&& s.edge_behav == edge_behav
                &&& s.jitter_behav == jitter_behav
                &&& s.next_mov == Direction::Stop
                &&& s.wrap_y_uses_x_bound
                &&& wf(s)
            },
    {
        if !(0 < max_x && 0 < max_y) {
            Err(GridError::BadBounds)
        } else if !(0 <= x && x < max_x && 0 <= y && y < max_y) {
            Err(GridError::BadStart)
        } else {
            Ok(
                GameState {
                    x,
                    y,
                    max_x,
                    max_y,
                    edge_behav,
                    jitter_behav,
                    next_mov: Direction::Stop,
                    wrap_y_uses_x_bound: true,
                },
            )
        }
    }

    /// Moves by `(x, y)` and re-applies the edge policy to each axis:
    /// clamping absorbs the move at the boundary, wrapping performs one
    /// wrap-around check per axis.
    pub fn mov(&mut self, x: i64, y: i64)
        requires
            bounds_ok(*old(self)),
            i64::MIN <= old(self).x + x <= i64::MAX,
            i64::MIN <= old(self).y + y <= i64::MAX,
        ensures
            same_config(*old(self), *final(self)),
            final(self).x as int == spec_mov_x(*old(self), x as int),
            final(self).y as int == spec_mov_y(*old(self), y as int),
    {
        if !self.edge_behav {
            // stopping behavior: `max_x - 1` because the range is 0 ..= len - 1
            let nx = self.x + x;
            self.x = if nx < 0 {
                0
            } else if nx > self.max_x - 1 {
                self.max_x - 1
            } else {
                nx
            };
            let ny = self.y + y;
            self.y = if ny < 0 {
                0
            } else if ny > self.max_y - 1 {
                self.max_y - 1
            } else {
                ny
            };
        } else {
            // wrapping behavior
            self.x = self.x + x;
            if self.x > self.max_x - 1 {
                self.x = 0;
            } else if self.x < 0 {
                self.x = self.max_x - 1;
            }
            self.y = self.y + y;
            if self.y > self.max_y - 1 {
                self.y = 0;
            } else if self.y < 0 {
                self.y = if self.wrap_y_uses_x_bound {
                    self.max_x - 1
                } else {
                    self.max_y - 1
                };
            }
        }
    }

    /// Flips between stopping and wrapping edge behavior.
    pub fn change_edge_behav(&mut self)
        ensures
            *final(self) == spec_toggle_edge(*old(self)),
    {
        self.edge_behav = !self.edge_behav
    }

    /// Starts or stops jittering.
    pub fn change_jitter_behav(&mut self)
        ensures
            *final(self) == spec_toggle_jitter(*old(self)),
    {
        self.jitter_behav = !self.jitter_behav
    }

    /// Applies the unit move selected by `r % 4`, whatever the jitter flag.
    pub fn apply_jitter(&mut self, r: u64)
        requires
            pos_ok(*old(self)),
        ensures
            same_config(*old(self), *final(self)),
            final(self).x as int == spec_mov_x(*old(self), jitter_delta(r).0),
            final(self).y as int == spec_mov_y(*old(self), jitter_delta(r).1),
    {
        let k = r % 4;
        if k == 0 {
            self.mov(1, 0)
        } else if k == 1 {
            self.mov(-1, 0)
        } else if k == 2 {
            self.mov(0, 1)
        } else {
            self.mov(0, -1)
        }
    }

    /// Pixel origin of the square on screen: the position scaled by
    /// `BLOCK_SIZE`.
    pub fn draw_pos(&self) -> (p: (i64, i64))
        requires
            i64::MIN <= self.x as int * BLOCK_SIZE as int <= i64::MAX,
            i64::MIN <= self.y as int * BLOCK_SIZE as int <= i64::MAX,
        ensures
            p.0 as int == self.x as int * BLOCK_SIZE as int,
            p.1 as int == self.y as int * BLOCK_SIZE as int,
    {
        (self.x * BLOCK_SIZE, self.y * BLOCK_SIZE)
    }

    /// When jittering is enabled, draws one sample from the process-wide
    /// generator and applies one of the four unit moves; otherwise does
    /// nothing.
    pub fn jitter(&mut self)
        requires
            pos_ok(*old(self)),
        ensures
            !old(self).jitter_behav ==> *final(self) == *old(self),
            old(self).jitter_behav ==> same_config(*old(self), *final(self)),
            old(self).jitter_behav ==> (exists|dx: int, dy: int|
                {
                    &&& is_unit_step(dx, dy)
                    &&& final(self).x as int == spec_mov_x(*old(self), dx)
                    &&& final(self).y as int == spec_mov_y(*old(self), dy)
                }),
    {
        if self.jitter_behav {
            let r = random_u64();
            self.apply_jitter(r);
            proof {
                // name the applied deltas as the witness for the
                // postcondition's existential
                let d = jitter_delta(r);
                assert(is_unit_step(d.0, d.1));
            }
        }
    }
}

} // verus!
