//! Keyboard state: which arrow keys are held, whether the game was asked to
//! close, and how key events change them.
use vstd::prelude::*;

verus! {

/// The keys that the game reacts to.
#[derive(Clone, Copy, Debug, PartialEq, Eq, Structural)]
pub enum Key {
    Space,
    Q,
    Left,
    Right,
    Up,
    Down,
    Other,
}

#[derive(Clone, Copy, Debug, PartialEq, Eq, Structural)]
pub enum KeyState {
    Pressed,
    Released,
}

/// Whether the control loop keeps running.
#[derive(Clone, Copy, Debug, PartialEq, Eq, Structural)]
pub enum CloseStatus {
    Running,
    Closed,
}

/// One keyboard event: the hardware scancode, the key it stands for, whether
/// it was pressed or released, and the modifier bits held at the time.
#[derive(Clone, Copy, Debug, PartialEq, Eq, Structural)]
pub struct KeyEvent {
    pub scancode: u32,
    pub key: Key,
    pub state: KeyState,
    pub modifiers: u32,
}

/// Which arrow keys are held down.
#[derive(Clone, Copy, Debug, PartialEq, Eq, Structural)]
pub struct ArrowKeyState {
    pub up: bool,
    pub down: bool,
    pub left: bool,
    pub right: bool,
}

pub open spec fn bool_value(b: bool) -> int {
    if b {
        1
    } else {
        0
    }
}

/// The arrow keys held after `key` went to `state`.
pub open spec fn arrows_after(a: ArrowKeyState, key: Key, state: KeyState) -> ArrowKeyState {
    let held = state == KeyState::Pressed;
    match key {
        Key::Left => ArrowKeyState { left: held, ..a },
        Key::Right => ArrowKeyState { right: held, ..a },
        Key::Up => ArrowKeyState { up: held, ..a },
        Key::Down => ArrowKeyState { down: held, ..a },
        _ => a,
    }
}

impl ArrowKeyState {
    /// No arrow key held.
    pub fn new() -> (r: ArrowKeyState)
        ensures
            r == (ArrowKeyState { up: false, down: false, left: false, right: false }),
    {
        ArrowKeyState { up: false, down: false, left: false, right: false }
    }

    /// The movement the held keys ask for at `speed`: right minus left along
    /// x, up minus down along y, each times `speed`.
    pub fn to_vector(&self, speed: i32) -> (r: (i64, i64))
        ensures
            r.0 == (bool_value(self.right) - bool_value(self.left)) * speed,
            r.1 == (bool_value(self.up) - bool_value(self.down)) * speed,
    {
        let x: i64 = (self.right as i64) - (self.left as i64);
        let y: i64 = (self.up as i64) - (self.down as i64);
        (x * speed as i64, y * speed as i64)
    }

    /// Records that `key` went to `state`.
    pub fn apply_key(&mut self, key: Key, state: KeyState)
        ensures
            *final(self) == arrows_after(*old(self), key, state),
    {
        let held = match state {
            KeyState::Pressed => true,
            KeyState::Released => false,
        };
        match key {
            Key::Left => self.left = held,
            Key::Right => self.right = held,
            Key::Up => self.up = held,
            Key::Down => self.down = held,
            _ => {},
        }
    }
}

/// The game's keyboard-driven state, and the last key event it took.
#[derive(Clone, Copy, Debug, PartialEq, Eq, Structural)]
pub struct InputState {
    pub arrows: ArrowKeyState,
    pub close: CloseStatus,
    pub last_event: Option<KeyEvent>,
}

/// The state after a key event that differs from the last one taken: arrow
/// keys follow it, `Q` asks to close, and it becomes the last event.
pub open spec fn input_after(s: InputState, e: KeyEvent) -> InputState {
    InputState {
        arrows: arrows_after(s.arrows, e.key, e.state),
        close: if e.key == Key::Q {
            CloseStatus::Closed
        } else {
            s.close
        },
        last_event: Some(e),
    }
}

impl InputState {
    /// No key held, running, no event taken yet.
    pub fn new() -> (r: InputState)
        ensures
            r == (InputState {
                arrows: ArrowKeyState { up: false, down: false, left: false, right: false },
                close: CloseStatus::Running,
                last_event: None,
            }),
    {
        InputState { arrows: ArrowKeyState::new(), close: CloseStatus::Running, last_event: None }
    }

    /// Takes one key event. An event equal to the last one taken (a key
    /// repeat) changes nothing. Returns whether the event is a press of the
    /// space key, to which the game answers with a greeting.
    pub fn record_key(&mut self, event: KeyEvent) -> (greet: bool)
        ensures
            old(self).last_event == Some(event) ==> *final(self) == *old(self) && !greet,
            old(self).last_event != Some(event) ==> *final(self) == input_after(*old(self), event)
                && greet == (event.key == Key::Space && event.state == KeyState::Pressed),
    {
        let repeated = match self.last_event {
            Some(prev) => prev == event,
            None => false,
        };
        if repeated {
            return false;
        }
        self.last_event = Some(event);
        self.arrows.apply_key(event.key, event.state);
        if event.key == Key::Q {
            self.close = CloseStatus::Closed;
        }
        event.key == Key::Space && event.state == KeyState::Pressed
    }

    /// Whether the game was asked to close.
    pub fn is_closed(&self) -> (r: bool)
        ensures
            r == (self.close == CloseStatus::Closed),
    {
        match self.close {
            CloseStatus::Closed => true,
            CloseStatus::Running => false,
        }
    }
}

} // verus!
