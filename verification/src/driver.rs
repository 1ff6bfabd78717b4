//! The event driver: keys set or clear the held direction and toggle the
//! behavior flags; every twelfth tick fires the jitter and the held move.

use vstd::prelude::*;

use crate::state::GameState;
use crate::state::Direction;
use crate::state::is_unit_step;
use crate::state::pos_ok;
use crate::state::same_config;
use crate::state::spec_toggle_edge;
use crate::state::spec_toggle_jitter;
use crate::state::step_x;
use crate::state::step_y;

verus! {

/// The keys the demo reacts to; everything else is `Other`.
#[derive(Clone, Copy, PartialEq, Eq, Structural, Debug)]
pub enum Key {
    Up,
    Down,
    Left,
    Right,
    W,
    J,
    Other,
}

/// One event from the windowing collaborator.
#[derive(Clone, Copy, PartialEq, Eq, Structural, Debug)]
pub enum Event {
    Render { width: u32, height: u32 },
    Press { key: Key },
    Release { key: Key },
    Tick,
}

/// The value a tick counter holds after one tick: it resets to 0 when the
/// increment reaches 12.
pub open spec fn next_count(c: u64) -> int {
    if c == 11 {
        0
    } else {
        c + 1
    }
}

/// The grid delta a held direction maps to; `Stop` maps to no movement.
pub open spec fn dir_delta(d: Direction) -> (int, int) {
    match d {
        Direction::UpDir => (0int, -1int),
        Direction::DownDir => (0int, 1int),
        Direction::LeftDir => (-1int, 0int),
        Direction::RightDir => (1int, 0int),
        Direction::Stop => (0int, 0int),
    }
}

/// An arrow key.
pub open spec fn is_arrow(k: Key) -> bool {
    k == Key::Up || k == Key::Down || k == Key::Left || k == Key::Right
}

/// The arrow key that sets direction `d`.
pub open spec fn arrow_matches(k: Key, d: Direction) -> bool {
    ||| (k == Key::Up && d == Direction::UpDir)
    ||| (k == Key::Down && d == Direction::DownDir)
    ||| (k == Key::Left && d == Direction::LeftDir)
    ||| (k == Key::Right && d == Direction::RightDir)
}

/// The state after a key-down: arrows overwrite the held direction
/// (last key wins), `W` and `J` toggle a flag, anything else is ignored.
pub open spec fn press_effect(s: GameState, k: Key) -> GameState {
    match k {
        Key::Up => GameState { next_mov: Direction::UpDir, ..s },
        Key::Down => GameState { next_mov: Direction::DownDir, ..s },
        Key::Left => GameState { next_mov: Direction::LeftDir, ..s },
        Key::Right => GameState { next_mov: Direction::RightDir, ..s },
        Key::W => spec_toggle_edge(s),
        Key::J => spec_toggle_jitter(s),
        Key::Other => s,
    }
}

/// The state after a key-up: an arrow release clears the held direction,
/// either unconditionally (`any_arrow` true) or only when the released
/// arrow matches the held one; other keys are ignored.
pub open spec fn release_effect(s: GameState, k: Key, any_arrow: bool) -> GameState {
    if is_arrow(k) && (any_arrow || arrow_matches(k, s.next_mov)) {
        GameState { next_mov: Direction::Stop, ..s }
    } else {
        s
    }
}

/// How one tick moves the position: when the jitter counter fires and
/// jittering is enabled, some unit step is applied first; when the slide
/// counter fires and a direction is held, its delta is applied after.
pub open spec fn tick_pos_rel(s0: GameState, s1: GameState, jfire: bool, sfire: bool) -> bool {
    let slide_applies = sfire && s0.next_mov != Direction::Stop;
    let sd = dir_delta(s0.next_mov);
    if jfire && s0.jitter_behav {
        exists|dx: int, dy: int|
            {
                &&& is_unit_step(dx, dy)
                &&& s1.x as int == if slide_applies {
                    step_x(s0, step_x(s0, s0.x as int, dx), sd.0)
                } else {
                    step_x(s0, s0.x as int, dx)
                }
                &&& s1.y as int == if slide_applies {
                    step_y(s0, step_y(s0, s0.y as int, dy), sd.1)
                } else {
                    step_y(s0, s0.y as int, dy)
                }
            }
    } else if slide_applies {
        s1.x as int == step_x(s0, s0.x as int, sd.0) && s1.y as int == step_y(
            s0,
            s0.y as int,
            sd.1,
        )
    } else {
        s1.x == s0.x && s1.y == s0.y
    }
}

/// The actor together with the two tick counters the event loop keeps.
#[derive(Clone, Copy, PartialEq, Eq, Structural, Debug)]
pub struct Game {
    pub state: GameState,
    pub jitter_counter: u64,
    pub slide_counter: u64,
    /// true: any arrow release clears the held direction; false: only the
    /// release of the matching arrow clears it. Both variants are kept as
    /// selectable behavior.
    pub release_any_arrow: bool,
}

/// The driver invariant: the position is reachable and both counters sit
/// in their 0 ..= 11 cycle.
pub open spec fn game_ok(g: Game) -> bool {
    pos_ok(g.state) && g.jitter_counter <= 11 && g.slide_counter <= 11
}

impl Game {
    /// Wraps a fresh state; both counters start at 11 so the first trigger
    /// fires after a single tick.
    pub fn new(state: GameState) -> (g: Game)
        ensures
            g.state == state,
            g.jitter_counter == 11,
            g.slide_counter == 11,
            g.release_any_arrow,
    {
        Game { state, jitter_counter: 11, slide_counter: 11, release_any_arrow: true }
    }

    /// Dispatches a key-down event.
    pub fn on_press(&mut self, key: Key)
        ensures
            final(self).state == press_effect(old(self).state, key),
            final(self).jitter_counter == old(self).jitter_counter,
            final(self).slide_counter == old(self).slide_counter,
            final(self).release_any_arrow == old(self).release_any_arrow,
    {
        match key {
            Key::Up => { self.state.next_mov = Direction::UpDir },
            Key::Down => { self.state.next_mov = Direction::DownDir },
            Key::Left => { self.state.next_mov = Direction::LeftDir },
            Key::Right => { self.state.next_mov = Direction::RightDir },
            Key::W => { self.state.change_edge_behav() },
            Key::J => { self.state.change_jitter_behav() },
            Key::Other => {},
        }
    }

    /// Dispatches a key-up event.
    pub fn on_release(&mut self, key: Key)
        ensures
            final(self).state == release_effect(
                old(self).state,
                key,
                old(self).release_any_arrow,
            ),
            final(self).jitter_counter == old(self).jitter_counter,
            final(self).slide_counter == old(self).slide_counter,
            final(self).release_any_arrow == old(self).release_any_arrow,
    {
        match key {
            Key::Up | Key::Down | Key::Left | Key::Right => {
                if self.release_any_arrow {
                    self.state.next_mov = Direction::Stop;
                } else {
                    let held: bool = match (key, self.state.next_mov) {
                        (Key::Up, Direction::UpDir) => true,
                        (Key::Down, Direction::DownDir) => true,
                        (Key::Left, Direction::LeftDir) => true,
                        (Key::Right, Direction::RightDir) => true,
                        _ => false,
                    };
                    if held {
                        self.state.next_mov = Direction::Stop;
                    }
                }
            },
            _ => {},
        }
    }

    /// One tick: both counters advance; at 12 each resets and fires its
    /// action — the jitter, then the move of the held direction.
    pub fn on_tick(&mut self)
        requires
            game_ok(*old(self)),
        ensures
            game_ok(*final(self)),
            final(self).release_any_arrow == old(self).release_any_arrow,
            final(self).jitter_counter as int == next_count(old(self).jitter_counter),
            final(self).slide_counter as int == next_count(old(self).slide_counter),
            same_config(old(self).state, final(self).state),
            tick_pos_rel(
                old(self).state,
                final(self).state,
                old(self).jitter_counter == 11,
                old(self).slide_counter == 11,
            ),
    {
        self.jitter_counter = self.jitter_counter + 1;
        if self.jitter_counter == 12 {
            self.jitter_counter = 0;
            self.state.jitter();
        }
        self.slide_counter = self.slide_counter + 1;
        if self.slide_counter == 12 {
            self.slide_counter = 0;
            match self.state.next_mov {
                Direction::UpDir => { self.state.mov(0, -1) },
                Direction::DownDir => { self.state.mov(0, 1) },
                Direction::LeftDir => { self.state.mov(-1, 0) },
                Direction::RightDir => { self.state.mov(1, 0) },
                Direction::Stop => {},
            }
        }
    }

    /// Dispatches one event of any kind: render events leave the state
    /// alone, the others act as `on_press`, `on_release` and `on_tick` do.
    pub fn handle_event(&mut self, ev: Event)
        requires
            game_ok(*old(self)),
        ensures
            game_ok(*final(self)),
            final(self).release_any_arrow == old(self).release_any_arrow,
            (ev matches Event::Render { .. }) ==> *final(self) == *old(self),
            ev matches Event::Press { key } ==> {
                &&& final(self).state == press_effect(old(self).state, key)
                &&& final(self).jitter_counter == old(self).jitter_counter
                &&& final(self).slide_counter == old(self).slide_counter
            },
            ev matches Event::Release { key } ==> {
                &&& final(self).state == release_effect(
                    old(self).state,
                    key,
                    old(self).release_any_arrow,
                )
                &&& final(self).jitter_counter == old(self).jitter_counter
                &&& final(self).slide_counter == old(self).slide_counter
            },
            ev == Event::Tick ==> {
                &&& final(self).jitter_counter as int == next_count(old(self).jitter_counter)
                &&& final(self).slide_counter as int == next_count(old(self).slide_counter)
                &&& same_config(old(self).state, final(self).state)
                &&& tick_pos_rel(
                    old(self).state,
                    final(self).state,
                    old(self).jitter_counter == 11,
                    old(self).slide_counter == 11,
                )
            },
    {
        match ev {
            Event::Render { .. } => {},
            Event::Press { key } => { self.on_press(key) },
            Event::Release { key } => { self.on_release(key) },
            Event::Tick => { self.on_tick() },
        }
    }
}

} // verus!
