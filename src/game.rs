//! The per-frame driver.
use vstd::prelude::*;

use crate::geometry::{Quad, Vec2};
use crate::input::{Input, KeyboardInput};
use crate::text::score_text;
use crate::state::{GameState, State, StateView};
use crate::system::{
    cell_in_board, crashed, game_over_started, lemma_crash_ends_round_once, steered, game_over_step, menu_started, menu_step, play_step,
    round_started, snake_step, with_score_label, with_visibility, GameOverSystem, MenuSystem,
    PlaySystem, SnakeSystem, VisibilitySystem,
};

verus! {

/// Something that happened in a tick, for the sound collaborator.
#[derive(Debug, Clone, Copy, PartialEq, Eq, Structural)]
pub enum Event {
    ButtonPressed,
    FocusChanged,
    SnakeCrashed,
    Score(u32),
}

/// One whole tick: visibility first, then the handler of the current flow
/// state, then the entry hook of a state just entered. `cell` is where a
/// pellet placed this tick goes; `elapsed_nanos` is the time since the round
/// ended.
pub open spec fn tick(s: StateView, i: Input, cell: (i32, i32), elapsed_nanos: u128) -> (
    StateView,
    Input,
    Seq<Event>,
) {
    let s1 = with_visibility(s);
    match s1.game_state {
        GameState::MainMenu => {
            let r = menu_step(s1, i);
            if r.0.game_state == GameState::Playing {
                (with_score_label(round_started(r.0, cell)), r.1, r.2)
            } else {
                r
            }
        },
        GameState::Playing => {
            let m = snake_step(s1, i, cell);
            let p = play_step(m.0, i);
            let e = m.1 + p.2;
            if p.0.game_state == GameState::MainMenu {
                (menu_started(p.0), p.1, e)
            } else if p.0.game_state == GameState::GameOver {
                (game_over_started(p.0), p.1, e)
            } else {
                (p.0, p.1, e)
            }
        },
        GameState::GameOver => {
            let r = game_over_step(s1, i, elapsed_nanos);
            if r.0.game_state == GameState::MainMenu {
                (menu_started(r.0), r.1, r.2)
            } else {
                r
            }
        },
        GameState::Quitting => (s1, i, Seq::empty()),
    }
}

pub struct SnakeGame {
    pub input: Input,
    pub events: Vec<Event>,
    pub state: State,
    pub menu_system: MenuSystem,
    pub visibility_system: VisibilitySystem,
    pub play_system: PlaySystem,
    pub snake_system: SnakeSystem,
    pub game_over_system: GameOverSystem,
}

impl SnakeGame {
    /// A game at the main menu with nothing pressed and no events.
    pub fn new() -> (r: SnakeGame)
        ensures
            r.state@.wf(),
            r.state@.is_fresh(),
            r.input == crate::input::released(),
            r.events@.len() == 0,
    {
        SnakeGame {
            input: Input::new(),
            events: Vec::new(),
            state: State::new(),
            menu_system: MenuSystem,
            visibility_system: VisibilitySystem,
            play_system: PlaySystem,
            snake_system: SnakeSystem,
            game_over_system: GameOverSystem::new(),
        }
    }

    /// Enters the main menu: Play focused.
    pub fn initialize(&mut self)
        ensures
            final(self).state@ == menu_started(old(self).state@),
            final(self).input == old(self).input,
            final(self).events@ == old(self).events@,
    {
        self.menu_system.start(&mut self.state);
    }

    /// Runs one tick with the given pellet cell and time since the round
    /// ended. Returns the events of the tick before, which are due to be
    /// sounded now; this tick's events are kept for the next.
    pub fn step(&mut self, cell: (i32, i32), elapsed_nanos: u128) -> (sounds: Vec<Event>)
        requires
            old(self).state@.wf(),
            old(self).state.snake.score < u32::MAX,
            cell_in_board(old(self).state.snake.segment_size, cell),
        ensures
            sounds@ == old(self).events@,
            final(self).state@ == tick(old(self).state@, old(self).input, cell, elapsed_nanos).0,
            final(self).input == tick(old(self).state@, old(self).input, cell, elapsed_nanos).1,
            final(self).events@ == tick(old(self).state@, old(self).input, cell, elapsed_nanos).2,
            final(self).state@.wf(),
    {
        let mut sounds: Vec<Event> = Vec::new();
        std::mem::swap(&mut sounds, &mut self.events);
        self.visibility_system.update_state(&mut self.input, &mut self.state, &mut self.events);
        if self.state.game_state == GameState::MainMenu {
            self.menu_system.update_state(&mut self.input, &mut self.state, &mut self.events);
            if self.state.game_state == GameState::Playing {
                self.snake_system.start(&mut self.state, cell);
                self.play_system.start(&mut self.state);
            }
        } else if self.state.game_state == GameState::Playing {
            self.snake_system.update_state(
                &mut self.input,
                &mut self.state,
                &mut self.events,
                cell,
            );
            self.play_system.update_state(&mut self.input, &mut self.state, &mut self.events);
            if self.state.game_state == GameState::MainMenu {
                self.menu_system.start(&mut self.state);
            } else if self.state.game_state == GameState::GameOver {
                self.game_over_system.start(&mut self.state);
            }
        } else if self.state.game_state == GameState::GameOver {
            self.game_over_system.update_state_after(
                &mut self.input,
                &mut self.state,
                &mut self.events,
                elapsed_nanos,
            );
            if self.state.game_state == GameState::MainMenu {
                self.menu_system.start(&mut self.state);
            }
        }
        assert(self.events@ =~= tick(old(self).state@, old(self).input, cell, elapsed_nanos).2);
        sounds
    }

    /// Runs one tick: draws the cell for a pellet placed now and reads the
    /// time since the round ended, then steps.
    pub fn update(&mut self) -> (sounds: Vec<Event>)
        requires
            old(self).state@.wf(),
            old(self).state.snake.score < u32::MAX,
        ensures
            sounds@ == old(self).events@,
            exists|cell: (i32, i32), elapsed_nanos: u128|
                {
                    let t = #[trigger] tick(old(self).state@, old(self).input, cell, elapsed_nanos);
                    &&& cell_in_board(old(self).state.snake.segment_size, cell)
                    &&& final(self).state@ == t.0
                    &&& final(self).input == t.1
                    &&& final(self).events@ == t.2
                },
            final(self).state@.wf(),
            old(self).state.game_state == GameState::MainMenu && old(self).input.esc_pressed
                ==> final(self).state.game_state == GameState::Quitting,
    {
        let ghost s0 = self.state@;
        let ghost i0 = self.input;
        let cell = self.snake_system.random_cell(&self.state);
        let elapsed = self.game_over_system.elapsed_nanos();
        proof {
            if s0.game_state == GameState::MainMenu && i0.esc_pressed {
                lemma_cancel_quits_from_menu(s0, i0, cell, elapsed);
            }
        }
        self.step(cell, elapsed)
    }

    pub fn process_keyboard(&mut self, input: KeyboardInput)
        ensures
            final(self).input == old(self).input.after(input),
            final(self).state@ == old(self).state@,
            final(self).events@ == old(self).events@,
    {
        self.input.update(input);
    }

    pub fn is_quitting(&self) -> (r: bool)
        ensures
            r == (self.state.game_state == GameState::Quitting),
    {
        self.state.game_state == GameState::Quitting
    }
}

/// From the main menu, cancel reaches the quitting state in one tick,
/// whichever button had the focus.
pub proof fn lemma_cancel_quits_from_menu(
    s: StateView,
    i: Input,
    cell: (i32, i32),
    elapsed_nanos: u128,
)
    requires
        s.game_state == GameState::MainMenu,
        i.esc_pressed,
    ensures
        tick(s, i, cell, elapsed_nanos).0.game_state == GameState::Quitting,
{
}

/// In a round, a crash (with cancel not pressed) ends the round in the same
/// tick with exactly one crash event.
pub proof fn lemma_crash_tick(s: StateView, i: Input, cell: (i32, i32), elapsed_nanos: u128)
    requires
        s.game_state == GameState::Playing,
        !i.esc_pressed,
        crashed(steered(with_visibility(s).snake, i), s.walls),
    ensures
        tick(s, i, cell, elapsed_nanos).0.game_state == GameState::GameOver,
        tick(s, i, cell, elapsed_nanos).2.len() >= 1,
        tick(s, i, cell, elapsed_nanos).2[0] == Event::SnakeCrashed,
        forall|k: int|
            1 <= k < tick(s, i, cell, elapsed_nanos).2.len() ==> tick(
                s,
                i,
                cell,
                elapsed_nanos,
            ).2[k] != Event::SnakeCrashed,
{
    lemma_crash_ends_round_once(with_visibility(s), i, cell);
    assert(tick(s, i, cell, elapsed_nanos).2 =~= snake_step(with_visibility(s), i, cell).1);
}

/// From the main menu with Play focused, confirm (without cancel or a move
/// down) starts a round: one segment at the origin, no score, and the score
/// label reading "Score: 0".
pub proof fn lemma_confirm_starts_round(
    s: StateView,
    i: Input,
    cell: (i32, i32),
    elapsed_nanos: u128,
)
    requires
        s.game_state == GameState::MainMenu,
        s.play_button.label.focused,
        i.enter_pressed,
        !i.esc_pressed,
        !i.down_pressed,
    ensures
        tick(s, i, cell, elapsed_nanos).0.game_state == GameState::Playing,
        tick(s, i, cell, elapsed_nanos).0.snake.body == seq![
            Quad { position: Vec2 { x: 0, y: 0 }, size: s.snake.segment_size },
        ],
        tick(s, i, cell, elapsed_nanos).0.snake.score == 0,
        tick(s, i, cell, elapsed_nanos).0.score.label.text == score_text(0),
{
}

} // verus!
