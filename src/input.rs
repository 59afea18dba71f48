//! What the player is pressing, as one flag per logical action.
use vstd::prelude::*;

verus! {

/// The keys the game listens to; every other key is `Other`.
#[derive(Debug, Clone, Copy, PartialEq, Eq, Structural)]
pub enum KeyboardKey {
    Up,
    Down,
    Left,
    Right,
    W,
    A,
    S,
    D,
    Return,
    Escape,
    Other,
}

#[derive(Debug, Clone, Copy, PartialEq, Eq, Structural)]
pub enum KeyboardKeyState {
    Pressed,
    Released,
}

/// One key going down or up.
#[derive(Debug, Clone, Copy, PartialEq, Eq, Structural)]
pub struct KeyboardInput {
    pub key: KeyboardKey,
    pub state: KeyboardKeyState,
}

#[derive(Debug, Clone, Copy, PartialEq, Eq, Structural)]
pub struct Input {
    pub up_pressed: bool,
    pub down_pressed: bool,
    pub left_pressed: bool,
    pub right_pressed: bool,
    pub enter_pressed: bool,
    pub esc_pressed: bool,
}

/// Nothing pressed.
pub open spec fn released() -> Input {
    Input {
        up_pressed: false,
        down_pressed: false,
        left_pressed: false,
        right_pressed: false,
        enter_pressed: false,
        esc_pressed: false,
    }
}

impl Input {
    /// The flags after `event`: arrows and WASD set their direction, Return
    /// sets confirm, and Escape raises cancel whether it went down or up.
    pub open spec fn after(self, event: KeyboardInput) -> Input {
        let pressed = event.state == KeyboardKeyState::Pressed;
        match event.key {
            KeyboardKey::Up | KeyboardKey::W => Input { up_pressed: pressed, ..self },
            KeyboardKey::Down | KeyboardKey::S => Input { down_pressed: pressed, ..self },
            KeyboardKey::Left | KeyboardKey::A => Input { left_pressed: pressed, ..self },
            KeyboardKey::Right | KeyboardKey::D => Input { right_pressed: pressed, ..self },
            KeyboardKey::Return => Input { enter_pressed: pressed, ..self },
            KeyboardKey::Escape => Input { esc_pressed: true, ..self },
            KeyboardKey::Other => self,
        }
    }

    pub fn new() -> (r: Input)
        ensures
            r == released(),
    {
        Input {
            up_pressed: false,
            down_pressed: false,
            left_pressed: false,
            right_pressed: false,
            enter_pressed: false,
            esc_pressed: false,
        }
    }

    pub fn update(&mut self, input: KeyboardInput)
        ensures
            *final(self) == old(self).after(input),
    {
        let pressed = match input.state {
            KeyboardKeyState::Pressed => true,
            KeyboardKeyState::Released => false,
        };
        match input.key {
            KeyboardKey::Up | KeyboardKey::W => {
                self.up_pressed = pressed;
            },
            KeyboardKey::Down | KeyboardKey::S => {
                self.down_pressed = pressed;
            },
            KeyboardKey::Left | KeyboardKey::A => {
                self.left_pressed = pressed;
            },
            KeyboardKey::Right | KeyboardKey::D => {
                self.right_pressed = pressed;
            },
            KeyboardKey::Return => {
                self.enter_pressed = pressed;
            },
            KeyboardKey::Escape => {
                self.esc_pressed = true;
            },
            KeyboardKey::Other => {},
        }
    }

    /// Menu navigation upward.
    pub fn ui_up_pressed(&self) -> (r: bool)
        ensures
            r == self.up_pressed,
    {
        self.up_pressed
    }

    /// Menu navigation downward.
    pub fn ui_down_pressed(&self) -> (r: bool)
        ensures
            r == self.down_pressed,
    {
        self.down_pressed
    }

    /// Releases every action.
    pub fn clear(&mut self)
        ensures
            *final(self) == released(),
    {
        self.up_pressed = false;
        self.down_pressed = false;
        self.left_pressed = false;
        self.right_pressed = false;
        self.enter_pressed = false;
        self.esc_pressed = false;
    }
}

} // verus!
