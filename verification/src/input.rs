//! The state of the player's controls, kept up to date key by key.

use vstd::prelude::*;

verus! {

/// A key of the keyboard, as far as the game tells keys apart.
#[derive(Clone, Copy, Debug, PartialEq, Eq, Structural)]
pub enum Key {
    Up,
    Left,
    Right,
    Space,
    Escape,
    /// Any key the game has no use for.
    Other,
}

/// What the player asks for at this moment: turning (`xaxis` is -1 for
/// left, 1 for right), thrust (`yaxis` is 1), fire, and leaving the game.
#[derive(Clone, Copy, Debug, PartialEq, Eq, Structural)]
pub struct InputState {
    pub xaxis: i8,
    pub yaxis: i8,
    pub fire: bool,
    pub quit: bool,
}

impl Default for InputState {
    /// Nothing is held down.
    fn default() -> (state: InputState)
        ensures
            state == (InputState { xaxis: 0, yaxis: 0, fire: false, quit: false }),
    {
        InputState { xaxis: 0, yaxis: 0, fire: false, quit: false }
    }
}

impl InputState {
    /// Each axis rests or is pushed fully one way, and thrust is never
    /// negative.
    pub open spec fn wf(self) -> bool {
        &&& -1 <= self.xaxis <= 1
        &&& 0 <= self.yaxis <= 1
    }

    /// The controls after `key` went down. Escape asks to leave for good:
    /// no key takes that back.
    pub open spec fn pressed(self, key: Key) -> InputState {
        match key {
            Key::Up => InputState { yaxis: 1, ..self },
            Key::Left => InputState { xaxis: -1i8, ..self },
            Key::Right => InputState { xaxis: 1, ..self },
            Key::Space => InputState { fire: true, ..self },
            Key::Escape => InputState { quit: true, ..self },
            Key::Other => self,
        }
    }

    /// The controls after `key` came up. Letting go of either turning key
    /// stops the turn, whichever way it went.
    pub open spec fn released(self, key: Key) -> InputState {
        match key {
            Key::Up => InputState { yaxis: 0, ..self },
            Key::Left | Key::Right => InputState { xaxis: 0, ..self },
            Key::Space => InputState { fire: false, ..self },
            Key::Escape | Key::Other => self,
        }
    }

    /// Takes note that `key` went down.
    pub fn handle_key_down(&mut self, key: Key)
        ensures
            *final(self) == old(self).pressed(key),
            old(self).wf() ==> final(self).wf(),
    {
        match key {
            Key::Up => {
                self.yaxis = 1;
            },
            Key::Left => {
                self.xaxis = -1;
            },
            Key::Right => {
                self.xaxis = 1;
            },
            Key::Space => {
                self.fire = true;
            },
            Key::Escape => {
                self.quit = true;
            },
            Key::Other => (),
        }
    }

    /// Takes note that `key` came up.
    pub fn handle_key_up(&mut self, key: Key)
        ensures
            *final(self) == old(self).released(key),
            old(self).wf() ==> final(self).wf(),
    {
        match key {
            Key::Up => {
                self.yaxis = 0;
            },
            Key::Left | Key::Right => {
                self.xaxis = 0;
            },
            Key::Space => {
                self.fire = false;
            },
            Key::Escape | Key::Other => (),
        }
    }
}

} // verus!
