use snake_game::game::{Event, SnakeGame};
use snake_game::geometry::{Quad, Vec2};
use snake_game::input::{Input, KeyboardInput, KeyboardKey, KeyboardKeyState};
use snake_game::state::{GameState, State};
use snake_game::system::{cell_bounds, GameOverSystem, MenuSystem, PlaySystem, SnakeSystem};
use snake_game::util::Direction;

fn seg() -> Vec2 {
    Vec2::new(4_000, 4_000)
}

fn started_game() -> SnakeGame {
    let mut g = SnakeGame::new();
    g.initialize();
    g
}

/// A game in a round, with the snake's head at `head` (its body snapped there)
/// heading `dir`.
fn playing_game(head: Vec2, cell: Vec2, dir: Direction) -> SnakeGame {
    let mut g = started_game();
    g.state.game_state = GameState::Playing;
    g.state.snake.position = head;
    g.state.snake.body = vec![Quad::new(cell, seg())];
    g.state.snake.direction = dir;
    g.state.pellet.update_position(Vec2::new(40_000, 40_000));
    g
}

#[test]
fn cancel_in_menu_quits_whatever_the_focus() {
    for quit_focused in [false, true] {
        let mut g = started_game();
        g.state.play_button.set_focus(!quit_focused);
        g.state.quit_button.set_focus(quit_focused);
        g.input.esc_pressed = true;
        g.input.enter_pressed = true;
        g.step((0, 0), 0);
        assert_eq!(g.state.game_state, GameState::Quitting);
        assert!(g.is_quitting());
    }
}

#[test]
fn confirm_on_play_starts_a_round() {
    let mut g = started_game();
    g.process_keyboard(KeyboardInput { key: KeyboardKey::Return, state: KeyboardKeyState::Pressed });
    let sounds = g.update();
    assert!(sounds.is_empty());
    assert_eq!(g.state.game_state, GameState::Playing);
    assert_eq!(g.state.snake.body.len(), 1);
    assert_eq!(g.state.snake.body[0].position, Vec2::new(0, 0));
    assert_eq!(g.state.score.render_text.text, "Score: 0");
    assert_eq!(g.events, vec![Event::ButtonPressed]);
    // The events come back on the next tick, for sound.
    let sounds = g.step((0, 0), 0);
    assert_eq!(sounds, vec![Event::ButtonPressed]);
}

#[test]
fn round_start_places_pellet_at_drawn_cell() {
    let mut g = started_game();
    g.input.enter_pressed = true;
    g.step((5, -7), 0);
    assert_eq!(g.state.pellet.quad.position, Vec2::new(20_000, -28_000));
}

#[test]
fn menu_focus_moves_down_and_up() {
    let mut s = State::new();
    let mut menu = MenuSystem;
    menu.start(&mut s);
    let mut i = Input::new();
    let mut e = Vec::new();
    i.down_pressed = true;
    menu.update_state(&mut i, &mut s, &mut e);
    assert!(!s.play_button.focused() && s.quit_button.focused());
    i.down_pressed = false;
    i.up_pressed = true;
    menu.update_state(&mut i, &mut s, &mut e);
    assert!(s.play_button.focused() && !s.quit_button.focused());
    assert_eq!(e, vec![Event::FocusChanged, Event::FocusChanged]);
    assert_eq!(s.game_state, GameState::MainMenu);
}

#[test]
fn confirm_on_quit_quits() {
    let mut s = State::new();
    let mut menu = MenuSystem;
    menu.start(&mut s);
    let mut i = Input::new();
    let mut e = Vec::new();
    i.down_pressed = true;
    i.enter_pressed = true;
    menu.update_state(&mut i, &mut s, &mut e);
    assert_eq!(s.game_state, GameState::Quitting);
    assert_eq!(e, vec![Event::FocusChanged, Event::ButtonPressed]);
}

#[test]
fn wall_hit_ends_round_once() {
    // Head at 0.99 on the x axis (cell 24), heading right at 0.005 per tick.
    let mut g = playing_game(Vec2::new(99_000, 0), Vec2::new(96_000, 0), Direction::Right);
    g.step((0, 0), 0);
    assert_eq!(g.state.snake.body[0].position, Vec2::new(100_000, 0));
    assert!(g.state.snake.intersects(&g.state.walls[1]));
    assert_eq!(g.state.game_state, GameState::GameOver);
    assert_eq!(g.events, vec![Event::SnakeCrashed]);
    assert_eq!(g.state.win_text.render_text.text, "Game Over");
}

#[test]
fn moving_inside_board_does_not_crash() {
    let mut g = playing_game(Vec2::new(0, 0), Vec2::new(0, 0), Direction::Up);
    g.step((0, 0), 0);
    assert_eq!(g.state.snake.position, Vec2::new(0, 500));
    assert_eq!(g.state.game_state, GameState::Playing);
    assert!(g.events.is_empty());
}

#[test]
fn pellet_in_head_cell_is_eaten() {
    let mut g = playing_game(Vec2::new(11_000, 0), Vec2::new(12_000, 0), Direction::Right);
    g.state.pellet.update_position(Vec2::new(12_000, 0));
    g.step((-5, 7), 0);
    assert_eq!(g.state.snake.score, 1);
    assert_eq!(g.state.snake.body.len(), 2);
    assert_eq!(g.state.snake.speed, 575);
    assert_eq!(g.state.pellet.quad.position, Vec2::new(-20_000, 28_000));
    assert_eq!(g.events, vec![Event::Score(1)]);
    assert_eq!(g.state.game_state, GameState::Playing);
    assert_eq!(g.state.score.render_text.text, "Score: 1");
}

#[test]
fn pellet_eaten_with_random_relocation() {
    let mut g = playing_game(Vec2::new(11_000, 0), Vec2::new(12_000, 0), Direction::Right);
    g.state.pellet.update_position(Vec2::new(12_000, 0));
    g.update();
    assert_eq!(g.state.snake.score, 1);
    assert_eq!(g.state.snake.body.len(), 2);
    let p = g.state.pellet.quad.position;
    assert!(p.x % 4_000 == 0 && p.y % 4_000 == 0);
    assert!(p.x.abs() < 100_000 && p.y.abs() < 100_000);
}

#[test]
fn turning_applies_after_the_move() {
    let mut g = playing_game(Vec2::new(0, 0), Vec2::new(0, 0), Direction::Right);
    g.input.up_pressed = true;
    g.step((0, 0), 0);
    assert_eq!(g.state.snake.position, Vec2::new(500, 0));
    assert_eq!(g.state.snake.direction, Direction::Up);
}

#[test]
fn reversal_is_ignored_on_the_next_tick() {
    let mut g = playing_game(Vec2::new(0, 0), Vec2::new(0, 0), Direction::Right);
    g.input.left_pressed = true;
    g.step((0, 0), 0);
    g.step((0, 0), 0);
    assert_eq!(g.state.snake.direction, Direction::Right);
    assert_eq!(g.state.snake.position, Vec2::new(1_000, 0));
}

#[test]
fn cancel_in_round_returns_to_menu() {
    let mut g = playing_game(Vec2::new(0, 0), Vec2::new(0, 0), Direction::Right);
    g.input.esc_pressed = true;
    g.input.left_pressed = true;
    g.step((0, 0), 0);
    assert_eq!(g.state.game_state, GameState::MainMenu);
    assert_eq!(g.input, Input::new());
    assert!(g.state.play_button.focused() && !g.state.quit_button.focused());
    assert_eq!(g.events, vec![Event::ButtonPressed]);
}

#[test]
fn play_system_refreshes_score_label() {
    let mut s = State::new();
    s.game_state = GameState::Playing;
    s.snake.eat_pellet();
    let mut p = PlaySystem;
    p.start(&mut s);
    assert_eq!(s.score.render_text.text, "Score: 1");
    let mut i = Input::new();
    let mut e = Vec::new();
    p.update_state(&mut i, &mut s, &mut e);
    assert_eq!(s.game_state, GameState::Playing);
    assert!(e.is_empty());
}

#[test]
fn game_over_returns_to_menu_after_dwell() {
    let mut s = State::new();
    s.game_state = GameState::GameOver;
    let mut go = GameOverSystem::new();
    go.start(&mut s);
    assert_eq!(s.win_text.render_text.text, "Game Over");
    let mut i = Input::new();
    let mut e = Vec::new();
    go.update_state_after(&mut i, &mut s, &mut e, 5_000_000_000);
    assert_eq!(s.game_state, GameState::GameOver);
    go.update_state_after(&mut i, &mut s, &mut e, 5_000_000_001);
    assert_eq!(s.game_state, GameState::MainMenu);
    assert!(e.is_empty());
}

#[test]
fn game_over_cancel_quits() {
    let mut s = State::new();
    s.game_state = GameState::GameOver;
    let go = GameOverSystem::new();
    let mut i = Input::new();
    i.esc_pressed = true;
    let mut e = Vec::new();
    go.update_state_after(&mut i, &mut s, &mut e, 1_000);
    assert_eq!(s.game_state, GameState::Quitting);
    assert!(!i.esc_pressed);
    assert_eq!(e, vec![Event::ButtonPressed]);
}

#[test]
fn game_over_clock_starts_fresh() {
    let mut s = State::new();
    s.game_state = GameState::GameOver;
    let mut go = GameOverSystem::new();
    go.start(&mut s);
    assert!(go.elapsed_nanos() < 5_000_000_000);
    go.update_state(&mut Input::new(), &mut s, &mut Vec::new());
    assert_eq!(s.game_state, GameState::GameOver);
}

#[test]
fn game_over_tick_through_driver() {
    let mut g = started_game();
    g.state.game_state = GameState::GameOver;
    g.step((0, 0), 6_000_000_000);
    assert_eq!(g.state.game_state, GameState::MainMenu);
    assert!(g.state.play_button.focused());
}

#[test]
fn quitting_is_terminal() {
    let mut g = started_game();
    g.state.game_state = GameState::Quitting;
    g.input.enter_pressed = true;
    g.step((0, 0), 0);
    assert_eq!(g.state.game_state, GameState::Quitting);
    assert!(g.events.is_empty());
}

#[test]
fn random_cells_stay_inside_and_vary() {
    let s = State::new();
    let sys = SnakeSystem;
    let mut seen = std::collections::HashSet::new();
    for _ in 0..300 {
        let (x, y) = sys.random_cell(&s);
        assert!((-24..=24).contains(&x) && (-24..=24).contains(&y));
        seen.insert((x, y));
    }
    assert!(seen.len() > 1);
}

#[test]
fn game_over_entry_shows_final_score() {
    let mut s = State::new();
    s.snake.eat_pellet();
    s.snake.eat_pellet();
    s.snake.eat_pellet();
    let mut go = GameOverSystem::new();
    go.start(&mut s);
    assert_eq!(s.score.render_text.text, "Score: 3");
    assert_eq!(s.win_text.render_text.text, "Game Over");
}

#[test]
fn new_game_is_fresh() {
    let g = SnakeGame::new();
    assert_eq!(g.state.game_state, GameState::MainMenu);
    assert_eq!(g.state.snake.score, 0);
    assert_eq!(g.state.snake.body, vec![Quad::new(Vec2::new(0, 0), seg())]);
    assert_eq!(g.state.walls.len(), 4);
    assert_eq!(g.state.play_button.render_text.text, "Play");
    assert_eq!(g.input, Input::new());
    assert!(g.events.is_empty());
}

#[test]
fn pellet_cell_bounds() {
    assert_eq!(cell_bounds(seg()), (24, 24));
    assert_eq!(cell_bounds(Vec2::new(1_000, 50_000)), (99, 1));
}

#[test]
fn game_over_cancel_beats_dwell() {
    let mut s = State::new();
    s.game_state = GameState::GameOver;
    let go = GameOverSystem::new();
    let mut i = Input::new();
    i.esc_pressed = true;
    let mut e = Vec::new();
    go.update_state_after(&mut i, &mut s, &mut e, 6_000_000_000);
    assert_eq!(s.game_state, GameState::Quitting);
    assert!(!i.esc_pressed);
    assert_eq!(e, vec![Event::ButtonPressed]);
}

#[test]
fn game_over_cancel_through_driver_after_dwell() {
    let mut g = started_game();
    g.state.game_state = GameState::GameOver;
    g.input.esc_pressed = true;
    g.step((0, 0), 6_000_000_000);
    assert!(g.is_quitting());
}
