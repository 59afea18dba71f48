//! The world: flow state, snake, pellet, walls and the labels on screen.
use vstd::prelude::*;

use crate::geometry::{Quad, Vec2};
use crate::pellet::Pellet;
use crate::snake::{segment_size_ok, Snake, SnakeView};
use crate::util::UNITS_PER_SCREEN;

verus! {

/// Extent of one grid cell on each axis (0.04 screen units).
pub const SEGMENT_SIZE: i64 = 4_000;

#[derive(Debug, Clone, Copy, PartialEq, Eq, Structural)]
pub enum GameState {
    MainMenu,
    Playing,
    GameOver,
    Quitting,
}

/// Where and how large a label is drawn, in pixels.
#[derive(Debug, Clone, Copy, PartialEq, Eq, Structural)]
pub struct Layout {
    pub x: u32,
    pub y: u32,
    pub font_size: u32,
    pub centered: bool,
}

/// A piece of text and its placement.
pub struct Label {
    pub text: String,
    pub layout: Layout,
    pub focused: bool,
}

/// What a label is, as mathematics.
pub ghost struct LabelView {
    pub text: Seq<char>,
    pub layout: Layout,
    pub focused: bool,
}

impl View for Label {
    type V = LabelView;

    open spec fn view(&self) -> LabelView {
        LabelView { text: self.text@, layout: self.layout, focused: self.focused }
    }
}

impl Label {
    pub fn new(text: &str, layout: Layout) -> (r: Label)
        ensures
            r@ == (LabelView { text: text@, layout, focused: false }),
    {
        Label { text: String::from_str(text), layout, focused: false }
    }

    /// A copy with the same text, layout and focus.
    pub fn duplicate(&self) -> (r: Label)
        ensures
            r@ == self@,
    {
        Label { text: self.text.clone(), layout: self.layout, focused: self.focused }
    }
}

pub struct SnakeText {
    pub render_text: Label,
    pub visible: bool,
}

pub ghost struct TextView {
    pub label: LabelView,
    pub visible: bool,
}

impl View for SnakeText {
    type V = TextView;

    open spec fn view(&self) -> TextView {
        TextView { label: self.render_text@, visible: self.visible }
    }
}

impl SnakeText {
    pub fn focused(&self) -> (r: bool)
        ensures
            r == self.render_text.focused,
    {
        self.render_text.focused
    }

    pub fn set_focus(&mut self, focused: bool)
        ensures
            final(self)@ == (TextView {
                label: LabelView { focused, ..old(self)@.label },
                ..old(self)@
            }),
    {
        self.render_text.focused = focused;
    }

    /// Replaces the text, keeping layout, focus and visibility.
    pub fn set_text(&mut self, text: String)
        ensures
            final(self)@ == (TextView {
                label: LabelView { text: text@, ..old(self)@.label },
                ..old(self)@
            }),
    {
        self.render_text.text = text;
    }
}

pub struct State {
    pub game_state: GameState,
    pub snake: Snake,
    pub pellet: Pellet,
    pub walls: Vec<Quad>,
    pub title_text: SnakeText,
    pub play_button: SnakeText,
    pub quit_button: SnakeText,
    pub score: SnakeText,
    pub win_text: SnakeText,
}

/// What the world is, as mathematics.
pub ghost struct StateView {
    pub game_state: GameState,
    pub snake: SnakeView,
    pub pellet: Pellet,
    pub walls: Seq<Quad>,
    pub title_text: TextView,
    pub play_button: TextView,
    pub quit_button: TextView,
    pub score: TextView,
    pub win_text: TextView,
}

impl View for State {
    type V = StateView;

    open spec fn view(&self) -> StateView {
        StateView {
            game_state: self.game_state,
            snake: self.snake@,
            pellet: self.pellet,
            walls: self.walls@,
            title_text: self.title_text@,
            play_button: self.play_button@,
            quit_button: self.quit_button@,
            score: self.score@,
            win_text: self.win_text@,
        }
    }
}

/// Four walls one cell thick, centred on the board's edges at -1 and 1.
pub open spec fn board_walls(size: Vec2) -> Seq<Quad> {
    let span_x = 2 * UNITS_PER_SCREEN + size.x;
    let span_y = 2 * UNITS_PER_SCREEN + size.y;
    seq![
        Quad { position: Vec2 { x: (-UNITS_PER_SCREEN) as i64, y: 0 }, size: Vec2 { x: size.x, y: span_y as i64 } },
        Quad { position: Vec2 { x: UNITS_PER_SCREEN, y: 0 }, size: Vec2 { x: size.x, y: span_y as i64 } },
        Quad { position: Vec2 { x: 0, y: (-UNITS_PER_SCREEN) as i64 }, size: Vec2 { x: span_x as i64, y: size.y } },
        Quad { position: Vec2 { x: 0, y: UNITS_PER_SCREEN }, size: Vec2 { x: span_x as i64, y: size.y } },
    ]
}

impl StateView {
    /// A world between ticks: a well-formed snake and a pellet one cell in size.
    pub open spec fn wf(self) -> bool {
        &&& self.snake.wf()
        &&& self.pellet.quad.size == self.snake.segment_size
    }

    /// The snake, score and pellet show while a round is on or just over.
    pub open spec fn in_game(self) -> bool {
        self.game_state == GameState::Playing || self.game_state == GameState::GameOver
    }

    /// The world at start-up: the main menu, a still snake of one segment at
    /// the origin with no score, the pellet there too, the four walls, the
    /// labels with their first texts, nothing shown and nothing focused.
    pub open spec fn is_fresh(self) -> bool {
        &&& self.game_state == GameState::MainMenu
        &&& self.snake.body == seq![
            Quad {
                position: Vec2 { x: 0, y: 0 },
                size: Vec2 { x: SEGMENT_SIZE, y: SEGMENT_SIZE },
            },
        ]
        &&& self.snake.segment_size == (Vec2 { x: SEGMENT_SIZE, y: SEGMENT_SIZE })
        &&& self.snake.position == (Vec2 { x: 0, y: 0 })
        &&& self.snake.score == 0
        &&& self.snake.speed == crate::util::STARTING_SNAKE_SPEED
        &&& self.snake.direction == crate::util::Direction::Idle
        &&& !self.snake.visible
        &&& self.pellet.quad == (Quad {
            position: Vec2 { x: 0, y: 0 },
            size: Vec2 { x: SEGMENT_SIZE, y: SEGMENT_SIZE },
        })
        &&& !self.pellet.visible
        &&& self.walls == board_walls(Vec2 { x: SEGMENT_SIZE, y: SEGMENT_SIZE })
        &&& self.title_text.label.text == "SNAKE"@
        &&& self.play_button.label.text == "Play"@
        &&& self.quit_button.label.text == "Quit"@
        &&& self.score.label.text == "0"@
        &&& self.win_text.label.text == ""@
        &&& !self.title_text.visible && !self.play_button.visible && !self.quit_button.visible
        &&& !self.score.visible && !self.win_text.visible
        &&& !self.play_button.label.focused && !self.quit_button.label.focused
    }
}

impl State {
    /// The world at start-up: the main menu, a still snake at the origin, and
    /// everything hidden until the first tick.
    pub fn new() -> (r: State)
        ensures
            r@.wf(),
            r@.is_fresh(),
    {
        let size = Vec2::new(SEGMENT_SIZE, SEGMENT_SIZE);
        let origin = Vec2::new(0, 0);
        let snake = Snake::new(origin, size);
        proof {
            assert(crate::coords::to_grid(size, origin) == (0i32, 0i32));
        }
        let pellet = Pellet::new(origin, SEGMENT_SIZE);
        let span = 2 * UNITS_PER_SCREEN + SEGMENT_SIZE;
        let mut walls: Vec<Quad> = Vec::new();
        walls.push(Quad::new(Vec2::new(-UNITS_PER_SCREEN, 0), Vec2::new(SEGMENT_SIZE, span)));
        walls.push(Quad::new(Vec2::new(UNITS_PER_SCREEN, 0), Vec2::new(SEGMENT_SIZE, span)));
        walls.push(Quad::new(Vec2::new(0, -UNITS_PER_SCREEN), Vec2::new(span, SEGMENT_SIZE)));
        walls.push(Quad::new(Vec2::new(0, UNITS_PER_SCREEN), Vec2::new(span, SEGMENT_SIZE)));
        let title = Layout { x: 20, y: 20, font_size: 64, centered: false };
        let play = Layout { x: 40, y: 100, font_size: 32, centered: false };
        let quit = Layout { x: 40, y: 160, font_size: 32, centered: false };
        let score = Layout { x: 120, y: 20, font_size: 32, centered: false };
        let win = Layout { x: 200, y: 200, font_size: 32, centered: true };
        let r = State {
            game_state: GameState::MainMenu,
            snake,
            pellet,
            walls,
            title_text: SnakeText { render_text: Label::new("SNAKE", title), visible: false },
            play_button: SnakeText { render_text: Label::new("Play", play), visible: false },
            quit_button: SnakeText { render_text: Label::new("Quit", quit), visible: false },
            score: SnakeText { render_text: Label::new("0", score), visible: false },
            win_text: SnakeText { render_text: Label::new("", win), visible: false },
        };
        assert(r@.walls =~= board_walls(size));
        r
    }

    /// The rectangles to draw: the snake's body while it shows, then the
    /// pellet while it shows.
    pub fn drawable_quads(&self) -> (r: Vec<Quad>)
        ensures
            r@ == (if self.snake.visible { self.snake.body@ } else { Seq::empty() }) + (
            if self.pellet.visible {
                seq![self.pellet.quad]
            } else {
                Seq::empty()
            }),
    {
        let mut r: Vec<Quad> = Vec::new();
        if self.snake.visible {
            let n = self.snake.body.len();
            let mut i: usize = 0;
            while i < n
                invariant
                    n == self.snake.body@.len(),
                    0 <= i <= n,
                    r@ == self.snake.body@.subrange(0, i as int),
                decreases n - i,
            {
                r.push(self.snake.body[i]);
                i = i + 1;
                assert(r@ =~= self.snake.body@.subrange(0, i as int));
            }
            assert(r@ =~= self.snake.body@);
        }
        if self.pellet.visible {
            r.push(self.pellet.quad);
        }
        assert(r@ =~= (if self.snake.visible { self.snake.body@ } else { Seq::empty() }) + (
        if self.pellet.visible {
            seq![self.pellet.quad]
        } else {
            Seq::empty()
        }));
        r
    }

    /// The labels to draw, in order title, play, quit, score, end message,
    /// each only while it shows.
    pub fn visible_texts(&self) -> (r: Vec<Label>)
        ensures
            r@.map_values(|l: Label| l@) == shown(self.title_text@) + shown(self.play_button@)
                + shown(self.quit_button@) + shown(self.score@) + shown(self.win_text@),
    {
        let mut r: Vec<Label> = Vec::new();
        push_if_visible(&mut r, &self.title_text);
        push_if_visible(&mut r, &self.play_button);
        push_if_visible(&mut r, &self.quit_button);
        push_if_visible(&mut r, &self.score);
        push_if_visible(&mut r, &self.win_text);
        assert(r@.map_values(|l: Label| l@) =~= shown(self.title_text@) + shown(
            self.play_button@,
        ) + shown(self.quit_button@) + shown(self.score@) + shown(self.win_text@));
        r
    }
}

/// The label of `t` if it shows, else nothing.
pub open spec fn shown(t: TextView) -> Seq<LabelView> {
    if t.visible {
        seq![t.label]
    } else {
        Seq::empty()
    }
}

fn push_if_visible(r: &mut Vec<Label>, t: &SnakeText)
    ensures
        final(r)@.map_values(|l: Label| l@) == old(r)@.map_values(|l: Label| l@) + shown(t@),
{
    if t.visible {
        r.push(t.render_text.duplicate());
    }
    assert(r@.map_values(|l: Label| l@) =~= old(r)@.map_values(|l: Label| l@) + shown(t@));
}

} // verus!
