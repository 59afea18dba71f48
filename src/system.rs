//! One handler per flow state, plus visibility, each a step on the world.
use vstd::prelude::*;

use crate::coords::{screen_coordinates, to_grid, to_screen};
use crate::game::Event;
use crate::geometry::{Quad, Vec2};
use crate::input::{released, Input};
use crate::pellet::Pellet;
use crate::snake::{within, SnakeView, POSITION_LIMIT};
use crate::state::{GameState, LabelView, State, StateView, TextView};
use crate::text::{score_label, score_text};
use crate::util::{Direction, UNITS_PER_SCREEN};

verus! {

/// Nanoseconds the end-of-round message stays before the menu returns.
pub const GAME_OVER_DWELL_NANOS: u128 = 5_000_000_000;

#[verifier::external_type_specification]
#[verifier::external_body]
pub struct ExInstant(std::time::Instant);

/// Relies on std's `Instant::now`: a reading of the monotonic clock, of which
/// nothing is promised.
pub assume_specification[ std::time::Instant::now ]() -> std::time::Instant;

/// Relies on std's `Instant::elapsed`: the time since the instant, of which
/// nothing is promised.
pub assume_specification[ std::time::Instant::elapsed ](t: &std::time::Instant) -> core::time::Duration;

/// Relies on std's `Duration::as_nanos`: the whole nanoseconds of a duration,
/// opaque here.
pub assume_specification[ core::time::Duration::as_nanos ](d: &core::time::Duration) -> u128;

/// Relies on rand's `Rng::gen_range` over `thread_rng`: a value in
/// `low..high` (the call panics on an empty range, which is ruled out).
#[verifier::external_body]
fn random_in(low: i64, high: i64) -> (r: i64)
    requires
        low < high,
    ensures
        low <= r < high,
{
    rand::Rng::gen_range(&mut rand::thread_rng(), low..high)
}

pub open spec fn with_label_focus(t: TextView, focused: bool) -> TextView {
    TextView { label: LabelView { focused, ..t.label }, ..t }
}

pub open spec fn with_label_text(t: TextView, text: Seq<char>) -> TextView {
    TextView { label: LabelView { text, ..t.label }, ..t }
}

pub open spec fn with_visible(t: TextView, visible: bool) -> TextView {
    TextView { visible, ..t }
}

/// Every visibility flag, derived from the flow state alone.
pub open spec fn with_visibility(s: StateView) -> StateView {
    let in_game = s.in_game();
    let in_menu = s.game_state == GameState::MainMenu;
    let over = s.game_state == GameState::GameOver;
    StateView {
        snake: SnakeView { visible: in_game, ..s.snake },
        score: with_visible(s.score, in_game),
        pellet: Pellet { visible: in_game, ..s.pellet },
        title_text: with_visible(s.title_text, in_menu),
        play_button: with_visible(s.play_button, in_menu),
        quit_button: with_visible(s.quit_button, in_menu),
        win_text: with_visible(s.win_text, over),
        ..s
    }
}

/// Entering the menu: Play has the focus, Quit does not.
pub open spec fn menu_started(s: StateView) -> StateView {
    StateView {
        play_button: with_label_focus(s.play_button, true),
        quit_button: with_label_focus(s.quit_button, false),
        ..s
    }
}

/// One menu tick: cancel quits; down moves the focus from Play to Quit and up
/// moves it back; confirm starts a round on Play and quits on Quit, unless
/// cancel already quit.
pub open spec fn menu_step(s: StateView, i: Input) -> (StateView, Input, Seq<Event>) {
    let play_f = s.play_button.label.focused;
    let quit_f = s.quit_button.label.focused;
    let cancel_events = if i.esc_pressed { seq![Event::ButtonPressed] } else { Seq::empty() };
    let to_quit = play_f && i.down_pressed;
    let to_play = !to_quit && quit_f && i.up_pressed;
    let pf = if to_quit { false } else if to_play { true } else { play_f };
    let qf = if to_quit { true } else if to_play { false } else { quit_f };
    let focus_events = if to_quit || to_play { seq![Event::FocusChanged] } else { Seq::empty() };
    let confirmed = !i.esc_pressed && i.enter_pressed && (pf || qf);
    let confirm_events = if confirmed { seq![Event::ButtonPressed] } else { Seq::empty() };
    let game_state = if i.esc_pressed {
        GameState::Quitting
    } else if pf && i.enter_pressed {
        GameState::Playing
    } else if qf && i.enter_pressed {
        GameState::Quitting
    } else {
        s.game_state
    };
    (
        StateView {
            game_state,
            play_button: with_label_focus(s.play_button, pf),
            quit_button: with_label_focus(s.quit_button, qf),
            ..s
        },
        Input { esc_pressed: false, ..i },
        cancel_events + focus_events + confirm_events,
    )
}

/// The score label shows the snake's score.
pub open spec fn with_score_label(s: StateView) -> StateView {
    StateView { score: with_label_text(s.score, score_text(s.snake.score)), ..s }
}

/// One tick of the round's controls: cancel goes back to the menu and clears
/// the input; the score label is refreshed.
pub open spec fn play_step(s: StateView, i: Input) -> (StateView, Input, Seq<Event>) {
    if i.esc_pressed {
        (
            with_score_label(StateView { game_state: GameState::MainMenu, ..s }),
            released(),
            seq![Event::ButtonPressed],
        )
    } else {
        (with_score_label(s), i, Seq::empty())
    }
}

/// Cells the pellet may take on one axis: those strictly inside the board.
pub open spec fn cell_bound(size: int) -> int {
    (UNITS_PER_SCREEN - 1) / size
}

/// How far from the origin, in cells, the pellet may go on each axis.
pub fn cell_bounds(size: Vec2) -> (r: (i64, i64))
    requires
        size.x > 0,
        size.y > 0,
    ensures
        r.0 == cell_bound(size.x as int),
        r.1 == cell_bound(size.y as int),
{
    ((UNITS_PER_SCREEN - 1) / size.x, (UNITS_PER_SCREEN - 1) / size.y)
}

pub open spec fn cell_in_board(size: Vec2, cell: (i32, i32)) -> bool {
    &&& within(cell.0 as int, cell_bound(size.x as int))
    &&& within(cell.1 as int, cell_bound(size.y as int))
}

/// Entering a round: the snake starts over and the pellet goes to `cell`.
pub open spec fn round_started(s: StateView, cell: (i32, i32)) -> StateView {
    StateView {
        snake: s.snake.reset(),
        pellet: Pellet {
            quad: Quad { position: to_screen(s.snake.segment_size, cell), ..s.pellet.quad },
            ..s.pellet
        },
        ..s
    }
}

pub open spec fn clamp_position(v: int) -> int {
    if v > POSITION_LIMIT {
        POSITION_LIMIT as int
    } else if v < -POSITION_LIMIT {
        -POSITION_LIMIT
    } else {
        v
    }
}

/// Where the head goes this tick: one speed-length along the heading, held
/// within `POSITION_LIMIT`.
pub open spec fn next_position(v: SnakeView) -> Vec2 {
    let (dx, dy) = v.direction.step_spec();
    Vec2 {
        x: clamp_position(v.position.x + dx * v.speed) as i64,
        y: clamp_position(v.position.y + dy * v.speed) as i64,
    }
}

/// The heading asked for: of the pressed directions that are not a reversal,
/// left wins over right, right over down, down over up; none keeps `cur`.
pub open spec fn requested_direction(i: Input, cur: Direction) -> Direction {
    if i.left_pressed && !Direction::Left.is_opposite(cur) {
        Direction::Left
    } else if i.right_pressed && !Direction::Right.is_opposite(cur) {
        Direction::Right
    } else if i.down_pressed && !Direction::Down.is_opposite(cur) {
        Direction::Down
    } else if i.up_pressed && !Direction::Up.is_opposite(cur) {
        Direction::Up
    } else {
        cur
    }
}

/// Whether the snake's box overlaps one of `qs[from..to]`.
pub open spec fn hits_any(v: SnakeView, qs: Seq<Quad>, from: int, to: int) -> bool {
    exists|k: int| from <= k < to && #[trigger] v.box_overlaps(qs[k])
}

/// A crash: the snake's box overlaps a wall or a body segment behind the head.
pub open spec fn crashed(v: SnakeView, walls: Seq<Quad>) -> bool {
    hits_any(v, walls, 0, walls.len() as int) || hits_any(v, v.body, 1, v.body.len() as int)
}

/// The snake after this tick's move and turn.
pub open spec fn steered(v: SnakeView, i: Input) -> SnakeView {
    let moved = v.moved(next_position(v));
    moved.turned(requested_direction(i, moved.direction))
}

/// One tick of the snake: move, turn, end the round on a crash, and eat the
/// pellet when the head's cell is the pellet's, which then goes to `cell`.
pub open spec fn snake_step(s: StateView, i: Input, cell: (i32, i32)) -> (StateView, Seq<Event>) {
    let v = steered(s.snake, i);
    let crash = crashed(v, s.walls);
    let crash_events = if crash { seq![Event::SnakeCrashed] } else { Seq::empty() };
    let game_state = if crash { GameState::GameOver } else { s.game_state };
    let eats = v.cell() == to_grid(v.segment_size, s.pellet.quad.position);
    if eats {
        let fed = v.fed();
        (
            StateView {
                game_state,
                snake: fed,
                pellet: Pellet {
                    quad: Quad { position: to_screen(v.segment_size, cell), ..s.pellet.quad },
                    ..s.pellet
                },
                ..s
            },
            crash_events + seq![Event::Score(fed.score as u32)],
        )
    } else {
        (StateView { game_state, snake: v, ..s }, crash_events)
    }
}

/// Entering the end of a round: the end message reads "Game Over" and the
/// score label shows the final score.
pub open spec fn game_over_started(s: StateView) -> StateView {
    with_score_label(StateView { win_text: with_label_text(s.win_text, "Game Over"@), ..s })
}

/// One tick after a round: cancel quits; otherwise, once the dwell has
/// passed, the menu returns.
pub open spec fn game_over_step(s: StateView, i: Input, elapsed_nanos: u128) -> (
    StateView,
    Input,
    Seq<Event>,
) {
    let game_state = if i.esc_pressed {
        GameState::Quitting
    } else if elapsed_nanos > GAME_OVER_DWELL_NANOS {
        GameState::MainMenu
    } else {
        s.game_state
    };
    (
        StateView { game_state, ..s },
        Input { esc_pressed: false, ..i },
        if i.esc_pressed { seq![Event::ButtonPressed] } else { Seq::empty() },
    )
}

/// Derives what shows from the flow state.
#[derive(Debug)]
pub struct VisibilitySystem;

impl VisibilitySystem {
    pub fn update_state(&self, _input: &mut Input, state: &mut State, _events: &mut Vec<Event>)
        ensures
            final(state)@ == with_visibility(old(state)@),
            *final(_input) == *old(_input),
            final(_events)@ == old(_events)@,
    {
        let in_game = state.game_state == GameState::Playing || state.game_state
            == GameState::GameOver;
        let in_menu = state.game_state == GameState::MainMenu;
        state.snake.visible = in_game;
        state.score.visible = in_game;
        state.pellet.visible = in_game;
        state.title_text.visible = in_menu;
        state.play_button.visible = in_menu;
        state.quit_button.visible = in_menu;
        state.win_text.visible = state.game_state == GameState::GameOver;
    }
}

#[derive(Debug)]
pub struct MenuSystem;

impl MenuSystem {
    pub fn start(&mut self, state: &mut State)
        ensures
            final(state)@ == menu_started(old(state)@),
    {
        state.play_button.set_focus(true);
        state.quit_button.set_focus(false);
    }

    pub fn update_state(&self, input: &mut Input, state: &mut State, events: &mut Vec<Event>)
        ensures
            final(state)@ == menu_step(old(state)@, *old(input)).0,
            *final(input) == menu_step(old(state)@, *old(input)).1,
            final(events)@ == old(events)@ + menu_step(old(state)@, *old(input)).2,
    {
        let cancel = input.esc_pressed;
        if cancel {
            events.push(Event::ButtonPressed);
            state.game_state = GameState::Quitting;
            input.esc_pressed = false;
        }
        if state.play_button.focused() && input.ui_down_pressed() {
            events.push(Event::FocusChanged);
            state.play_button.set_focus(false);
            state.quit_button.set_focus(true);
        } else if state.quit_button.focused() && input.ui_up_pressed() {
            events.push(Event::FocusChanged);
            state.quit_button.set_focus(false);
            state.play_button.set_focus(true);
        }
        if !cancel {
            if state.play_button.focused() && input.enter_pressed {
                events.push(Event::ButtonPressed);
                state.game_state = GameState::Playing;
            } else if state.quit_button.focused() && input.enter_pressed {
                events.push(Event::ButtonPressed);
                state.game_state = GameState::Quitting;
            }
        }
        assert(events@ =~= old(events)@ + menu_step(old(state)@, *old(input)).2);
    }
}

#[derive(Debug)]
pub struct PlaySystem;

impl PlaySystem {
    /// Entering a round: the score label shows the (fresh) score.
    pub fn start(&mut self, state: &mut State)
        ensures
            final(state)@ == with_score_label(old(state)@),
    {
        state.score.set_text(score_label(state.snake.score));
    }

    pub fn update_state(&self, input: &mut Input, state: &mut State, events: &mut Vec<Event>)
        ensures
            final(state)@ == play_step(old(state)@, *old(input)).0,
            *final(input) == play_step(old(state)@, *old(input)).1,
            final(events)@ == old(events)@ + play_step(old(state)@, *old(input)).2,
    {
        if input.esc_pressed {
            input.clear();
            events.push(Event::ButtonPressed);
            state.game_state = GameState::MainMenu;
        }
        state.score.set_text(score_label(state.snake.score));
        assert(events@ =~= old(events)@ + play_step(old(state)@, *old(input)).2);
    }
}

/// Moves the snake, and places the pellet.
#[derive(Debug)]
pub struct SnakeSystem;

fn clamp_exec(v: i64) -> (r: i64)
    ensures
        r == clamp_position(v as int),
{
    if v > POSITION_LIMIT {
        POSITION_LIMIT
    } else if v < -POSITION_LIMIT {
        -POSITION_LIMIT
    } else {
        v
    }
}

fn requested_direction_exec(i: &Input, cur: Direction) -> (r: Direction)
    ensures
        r == requested_direction(*i, cur),
{
    if i.left_pressed && !Direction::Left.is_reversal_of(&cur) {
        Direction::Left
    } else if i.right_pressed && !Direction::Right.is_reversal_of(&cur) {
        Direction::Right
    } else if i.down_pressed && !Direction::Down.is_reversal_of(&cur) {
        Direction::Down
    } else if i.up_pressed && !Direction::Up.is_reversal_of(&cur) {
        Direction::Up
    } else {
        cur
    }
}

/// Whether the snake's box overlaps one of `qs[from..]`.
fn hits_any_exec(snake: &crate::snake::Snake, qs: &Vec<Quad>, from: usize) -> (r: bool)
    requires
        snake@.inv(),
    ensures
        r == hits_any(snake@, qs@, from as int, qs@.len() as int),
{
    let n = qs.len();
    if from >= n {
        return false;
    }
    let mut i = from;
    let mut hit = false;
    while i < n
        invariant
            n == qs@.len(),
            snake@.inv(),
            from <= i <= n,
            hit == hits_any(snake@, qs@, from as int, i as int),
        decreases n - i,
    {
        if snake.intersects(&qs[i]) {
            hit = true;
        }
        i = i + 1;
    }
    hit
}

impl SnakeSystem {
    /// Entering a round: the snake starts over and the pellet goes to `cell`.
    pub fn start(&mut self, state: &mut State, cell: (i32, i32))
        requires
            old(state)@.wf(),
            cell_in_board(old(state).snake.segment_size, cell),
        ensures
            final(state)@ == round_started(old(state)@, cell),
            final(state)@.wf(),
    {
        proof {
            lemma_cell_fits(state.snake.segment_size, cell);
        }
        state.snake.reset();
        let p = screen_coordinates(state.snake.segment_size, cell);
        state.pellet.update_position(p);
    }

    /// A cell drawn at random, strictly inside the board.
    pub fn random_cell(&self, state: &State) -> (r: (i32, i32))
        requires
            state@.wf(),
        ensures
            cell_in_board(state.snake.segment_size, r),
    {
        let (bx, by) = cell_bounds(state.snake.segment_size);
        let x = random_in(-bx, bx + 1);
        let y = random_in(-by, by + 1);
        (x as i32, y as i32)
    }

    /// One tick of a round, with `cell` where a pellet eaten now goes next.
    pub fn update_state(
        &self,
        input: &mut Input,
        state: &mut State,
        events: &mut Vec<Event>,
        cell: (i32, i32),
    )
        requires
            old(state)@.wf(),
            old(state).snake.score < u32::MAX,
            cell_in_board(old(state).snake.segment_size, cell),
        ensures
            final(state)@ == snake_step(old(state)@, *old(input), cell).0,
            final(events)@ == old(events)@ + snake_step(old(state)@, *old(input), cell).1,
            *final(input) == *old(input),
            final(state)@.wf(),
            !final(state).snake.direction.is_opposite(old(state).snake.direction),
            crashed(steered(old(state)@.snake, *old(input)), old(state)@.walls) ==> {
                &&& final(state).game_state == GameState::GameOver
                &&& final(events)@.len() > old(events)@.len()
                &&& final(events)@[old(events)@.len() as int] == Event::SnakeCrashed
                &&& forall|k: int|
                    old(events)@.len() < k < final(events)@.len() ==> final(events)@[k]
                        != Event::SnakeCrashed
            },
            !crashed(steered(old(state)@.snake, *old(input)), old(state)@.walls) && steered(
                old(state)@.snake,
                *old(input),
            ).cell() == to_grid(old(state).snake.segment_size, old(state).pellet.quad.position)
                ==> {
                &&& final(state).snake.score == old(state).snake.score + 1
                &&& final(state).snake.body@.len() == old(state).snake.body@.len() + 1
                &&& final(events)@ == old(events)@.push(Event::Score((old(state).snake.score + 1) as u32))
                &&& final(state).pellet.quad.position == to_screen(old(state).snake.segment_size, cell)
                &&& final(state).game_state == old(state).game_state
            },
    {
        let ghost s0 = state@;
        let ghost i0 = *input;
        let ghost e0 = events@;
        let (dx, dy) = state.snake.direction();
        let speed = state.snake.speed;
        let pos = state.snake.position();
        assert(-speed <= dx * speed <= speed && -speed <= dy * speed <= speed) by (nonlinear_arith)
            requires
                -1 <= dx <= 1,
                -1 <= dy <= 1,
                speed >= 0,
        ;
        let next = Vec2::new(clamp_exec(pos.x + dx * speed), clamp_exec(pos.y + dy * speed));
        state.snake.update_position(next);
        let d = requested_direction_exec(input, state.snake.direction);
        state.snake.update_direction(d);
        let ghost v = state.snake@;
        assert(v == steered(s0.snake, *input));
        let wall_hit = hits_any_exec(&state.snake, &state.walls, 0);
        let self_hit = hits_any_exec(&state.snake, &state.snake.body, 1);
        if wall_hit || self_hit {
            events.push(Event::SnakeCrashed);
            state.game_state = GameState::GameOver;
        }
        if state.snake.collides(&state.pellet.quad) {
            state.snake.eat_pellet();
            events.push(Event::Score(state.snake.score));
            proof {
                lemma_cell_fits(state.snake.segment_size, cell);
            }
            let p = screen_coordinates(state.snake.segment_size, cell);
            state.pellet.update_position(p);
        }
        assert(events@ =~= old(events)@ + snake_step(s0, *old(input), cell).1);
        proof {
            lemma_snake_step_never_reverses(s0, i0, cell);
            if crashed(steered(s0.snake, i0), s0.walls) {
                lemma_crash_ends_round_once(s0, i0, cell);
                let e = snake_step(s0, i0, cell).1;
                assert forall|k: int| e0.len() < k < events@.len() implies events@[k]
                    != Event::SnakeCrashed by {
                    assert(events@[k] == e[k - e0.len()]);
                }
            } else if steered(s0.snake, i0).cell() == to_grid(
                s0.snake.segment_size,
                s0.pellet.quad.position,
            ) {
                lemma_eating_grows_by_one(s0, i0, cell);
                assert(events@ =~= e0.push(Event::Score((s0.snake.score + 1) as u32)));
            }
        }
    }
}

proof fn lemma_cell_fits(size: Vec2, cell: (i32, i32))
    requires
        crate::snake::segment_size_ok(size),
        cell_in_board(size, cell),
    ensures
        crate::coords::screen_fits(size, cell),
{
    assert(-UNITS_PER_SCREEN <= cell.0 * size.x <= UNITS_PER_SCREEN) by (nonlinear_arith)
        requires
            within(cell.0 as int, (UNITS_PER_SCREEN - 1) / size.x as int),
            size.x > 0,
    ;
    assert(-UNITS_PER_SCREEN <= cell.1 * size.y <= UNITS_PER_SCREEN) by (nonlinear_arith)
        requires
            within(cell.1 as int, (UNITS_PER_SCREEN - 1) / size.y as int),
            size.y > 0,
    ;
}

/// Ends a round and, after a dwell, goes back to the menu.
pub struct GameOverSystem {
    last_time: std::time::Instant,
}

impl GameOverSystem {
    pub fn new() -> (r: GameOverSystem) {
        GameOverSystem { last_time: std::time::Instant::now() }
    }

    /// Entering the end of a round: notes the time and sets the end message.
    pub fn start(&mut self, state: &mut State)
        ensures
            final(state)@ == game_over_started(old(state)@),
    {
        self.last_time = std::time::Instant::now();
        let msg = String::from_str("Game Over");
        proof {
            reveal_strlit("Game Over");
        }
        state.win_text.set_text(msg);
        state.score.set_text(score_label(state.snake.score));
    }

    /// Nanoseconds since the round ended.
    pub fn elapsed_nanos(&self) -> u128 {
        self.last_time.elapsed().as_nanos()
    }

    /// One tick after a round, `elapsed_nanos` after it ended.
    pub fn update_state_after(
        &self,
        input: &mut Input,
        state: &mut State,
        events: &mut Vec<Event>,
        elapsed_nanos: u128,
    )
        ensures
            final(state)@ == game_over_step(old(state)@, *old(input), elapsed_nanos).0,
            *final(input) == game_over_step(old(state)@, *old(input), elapsed_nanos).1,
            final(events)@ == old(events)@ + game_over_step(
                old(state)@,
                *old(input),
                elapsed_nanos,
            ).2,
    {
        if input.esc_pressed {
            events.push(Event::ButtonPressed);
            state.game_state = GameState::Quitting;
            input.esc_pressed = false;
        } else if elapsed_nanos > GAME_OVER_DWELL_NANOS {
            state.game_state = GameState::MainMenu;
        }
        assert(events@ =~= old(events)@ + game_over_step(old(state)@, *old(input), elapsed_nanos).2);
    }

    /// One tick after a round, measured against the clock.
    pub fn update_state(&self, input: &mut Input, state: &mut State, events: &mut Vec<Event>)
        ensures
            exists|elapsed: u128|
                {
                    let (s, i, e) = #[trigger] game_over_step(old(state)@, *old(input), elapsed);
                    &&& final(state)@ == s
                    &&& *final(input) == i
                    &&& final(events)@ == old(events)@ + e
                },
    {
        let elapsed = self.elapsed_nanos();
        self.update_state_after(input, state, events, elapsed);
    }
}

/// A tick never turns the snake straight back: whatever is pressed, the
/// heading after the tick is not the reverse of the heading before.
pub proof fn lemma_tick_never_reverses(v: SnakeView, i: Input)
    ensures
        !steered(v, i).direction.is_opposite(v.direction),
{
}

/// A snake tick never turns the snake straight back, whether or not it eats.
pub proof fn lemma_snake_step_never_reverses(s: StateView, i: Input, cell: (i32, i32))
    ensures
        !snake_step(s, i, cell).0.snake.direction.is_opposite(s.snake.direction),
{
    lemma_tick_never_reverses(s.snake, i);
}

/// A crash ends the round with exactly one crash event, first in the tick's
/// events, however many walls or segments the head overlaps.
pub proof fn lemma_crash_ends_round_once(s: StateView, i: Input, cell: (i32, i32))
    requires
        crashed(steered(s.snake, i), s.walls),
    ensures
        snake_step(s, i, cell).0.game_state == GameState::GameOver,
        snake_step(s, i, cell).1.len() >= 1,
        snake_step(s, i, cell).1[0] == Event::SnakeCrashed,
        forall|k: int|
            1 <= k < snake_step(s, i, cell).1.len() ==> snake_step(s, i, cell).1[k]
                != Event::SnakeCrashed,
{
}

/// Eating without a crash: one point and one segment more, a score event
/// with the new score, and the pellet at the drawn cell (which may be the
/// cell it left).
pub proof fn lemma_eating_grows_by_one(s: StateView, i: Input, cell: (i32, i32))
    requires
        s.wf(),
        s.snake.score < u32::MAX,
        !crashed(steered(s.snake, i), s.walls),
        steered(s.snake, i).cell() == to_grid(s.snake.segment_size, s.pellet.quad.position),
    ensures
        snake_step(s, i, cell).0.snake.score == s.snake.score + 1,
        snake_step(s, i, cell).0.snake.body.len() == s.snake.body.len() + 1,
        snake_step(s, i, cell).0.snake.body.len() == snake_step(s, i, cell).0.snake.score + 1,
        snake_step(s, i, cell).1 == seq![Event::Score((s.snake.score + 1) as u32)],
        snake_step(s, i, cell).0.pellet.quad.position == to_screen(s.snake.segment_size, cell),
        snake_step(s, i, cell).0.game_state == s.game_state,
{
    let v = s.snake;
    assert(v.moved(next_position(v)).body.len() == v.body.len());
}

/// Deriving visibility twice in a row gives the same flags as once.
pub proof fn lemma_visibility_idempotent(s: StateView)
    ensures
        with_visibility(with_visibility(s)) == with_visibility(s),
{
}

} // verus!
