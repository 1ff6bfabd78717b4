use moving_square::driver::Event;
use moving_square::driver::Game;
use moving_square::driver::Key;
use moving_square::state::Direction;
use moving_square::state::GameState;

fn game(x: i64, y: i64, edge: bool, jitter: bool) -> Game {
    Game::new(GameState::new(x, y, 5, 5, edge, jitter).expect("in-range construction"))
}

#[test]
fn new_game_counters_start_at_eleven() {
    let g = game(2, 2, false, false);
    assert_eq!(g.jitter_counter, 11);
    assert_eq!(g.slide_counter, 11);
    assert!(g.release_any_arrow);
}

#[test]
fn press_sets_direction_last_key_wins() {
    let mut g = game(2, 2, false, false);
    g.on_press(Key::Right);
    assert_eq!(g.state.next_mov, Direction::RightDir);
    g.on_press(Key::Up);
    assert_eq!(g.state.next_mov, Direction::UpDir);
    g.on_press(Key::Down);
    assert_eq!(g.state.next_mov, Direction::DownDir);
    g.on_press(Key::Left);
    assert_eq!(g.state.next_mov, Direction::LeftDir);
}

#[test]
fn press_toggles_behavior_flags() {
    let mut g = game(2, 2, false, false);
    g.on_press(Key::W);
    assert!(g.state.edge_behav);
    g.on_press(Key::J);
    assert!(g.state.jitter_behav);
    g.on_press(Key::W);
    g.on_press(Key::J);
    assert!(!g.state.edge_behav && !g.state.jitter_behav);
}

#[test]
fn press_other_key_is_ignored() {
    let mut g = game(2, 2, false, false);
    let before = g;
    g.on_press(Key::Other);
    assert_eq!(g, before);
    g.on_release(Key::Other);
    assert_eq!(g, before);
}

#[test]
fn release_any_arrow_clears_direction() {
    let mut g = game(2, 2, false, false);
    g.on_press(Key::Right);
    g.on_release(Key::Up);
    assert_eq!(g.state.next_mov, Direction::Stop);
}

#[test]
fn release_matching_only_mode() {
    let mut g = game(2, 2, false, false);
    g.release_any_arrow = false;
    g.on_press(Key::Right);
    g.on_release(Key::Up);
    assert_eq!(g.state.next_mov, Direction::RightDir);
    g.on_release(Key::Right);
    assert_eq!(g.state.next_mov, Direction::Stop);
}

#[test]
fn first_tick_fires_and_resets_counters() {
    let mut g = game(2, 2, false, false);
    g.on_press(Key::Right);
    g.on_tick();
    assert_eq!(g.jitter_counter, 0);
    assert_eq!(g.slide_counter, 0);
    assert_eq!((g.state.x, g.state.y), (3, 2));
    g.on_tick();
    assert_eq!(g.slide_counter, 1);
    assert_eq!((g.state.x, g.state.y), (3, 2));
}

#[test]
fn scenario_clamp_right_then_up() {
    let mut g = game(2, 2, false, false);
    g.on_press(Key::Right);
    for _ in 0..12 {
        g.on_tick();
    }
    assert_eq!((g.state.x, g.state.y), (3, 2));
    // Up is pressed while Right stays held: the last key-down wins.
    g.on_press(Key::Up);
    for _ in 0..12 {
        g.on_tick();
    }
    assert_eq!((g.state.x, g.state.y), (3, 1));
}

#[test]
fn scenario_jitter_once_in_twelve_ticks() {
    let mut g = game(2, 2, false, true);
    for _ in 0..12 {
        g.on_tick();
    }
    let dx = (g.state.x - 2).abs();
    let dy = (g.state.y - 2).abs();
    assert_eq!(
        dx + dy,
        1,
        "one unit move expected, position is ({}, {})",
        g.state.x,
        g.state.y
    );
}

#[test]
fn stop_direction_means_no_slide() {
    let mut g = game(2, 2, false, false);
    for _ in 0..40 {
        g.on_tick();
    }
    assert_eq!((g.state.x, g.state.y), (2, 2));
}

#[test]
fn handle_event_dispatches() {
    let mut g = game(2, 2, false, false);
    let before = g;
    g.handle_event(Event::Render {
        width: 500,
        height: 500,
    });
    assert_eq!(g, before);
    g.handle_event(Event::Press { key: Key::Right });
    assert_eq!(g.state.next_mov, Direction::RightDir);
    g.handle_event(Event::Tick);
    assert_eq!((g.state.x, g.state.y), (3, 2));
    g.handle_event(Event::Release { key: Key::Right });
    assert_eq!(g.state.next_mov, Direction::Stop);
}

#[test]
fn wrap_slide_across_edge() {
    let mut g = game(4, 2, true, false);
    g.on_press(Key::Right);
    g.on_tick();
    assert_eq!((g.state.x, g.state.y), (0, 2));
}
