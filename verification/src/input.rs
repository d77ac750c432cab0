//! One frame of input, as the host polled it.

use crate::geometry::Point;
use vstd::prelude::*;

verus! {

/// State of a key or mouse button in one frame: whether it went down in this
/// frame, whether it is down, and whether it came up in this frame.
#[derive(Clone, Copy, Debug, PartialEq, Eq, Structural)]
pub struct KeyState {
    pub pressed: bool,
    pub down: bool,
    pub released: bool,
}

impl KeyState {
    /// A key that is up and has not moved.
    pub fn idle() -> (k: KeyState)
        ensures
            k == (KeyState { pressed: false, down: false, released: false }),
    {
        KeyState { pressed: false, down: false, released: false }
    }

    /// A key in the frame in which it goes down.
    pub fn press() -> (k: KeyState)
        ensures
            k == (KeyState { pressed: true, down: true, released: false }),
    {
        KeyState { pressed: true, down: true, released: false }
    }

    /// A key that went down in an earlier frame and is still down.
    pub fn held() -> (k: KeyState)
        ensures
            k == (KeyState { pressed: false, down: true, released: false }),
    {
        KeyState { pressed: false, down: true, released: false }
    }

    /// A key in the frame in which it comes up.
    pub fn release() -> (k: KeyState)
        ensures
            k == (KeyState { pressed: false, down: false, released: true }),
    {
        KeyState { pressed: false, down: false, released: true }
    }

    /// Whether the key changed state in this frame.
    pub open spec fn edged(self) -> bool {
        self.pressed || self.released
    }
}

/// Everything a widget reads in one frame.
#[derive(Debug)]
pub struct FrameInput {
    /// Pointer position.
    pub mouse_position: Point,
    /// Left mouse button.
    pub mouse_left: KeyState,
    /// Wheel movement in notches, positive away from the user.
    pub wheel_move: i32,
    /// Time since the previous frame, in microseconds.
    pub frame_time: u32,
    /// Either control key is down.
    pub ctrl: bool,
    /// Either shift key is down.
    pub shift: bool,
    /// The A, C, X and V keys went down in this frame.
    pub key_a: bool,
    pub key_c: bool,
    pub key_x: bool,
    pub key_v: bool,
    /// Escape went down in this frame.
    pub escape: bool,
    pub left: KeyState,
    pub right: KeyState,
    pub home: KeyState,
    pub end: KeyState,
    pub backspace: KeyState,
    pub delete: KeyState,
    /// Characters typed in this frame, in order.
    pub chars: Vec<char>,
    /// Text on the clipboard at the start of the frame; `None` where the
    /// clipboard cannot be read or holds no text.
    pub clipboard: Option<Vec<char>>,
}

impl FrameInput {
    /// A frame of `frame_time` microseconds in which nothing is pressed, held
    /// or typed, with the pointer at the origin and no clipboard.
    pub fn quiet(frame_time: u32) -> (input: FrameInput)
        ensures
            input.frame_time == frame_time,
            input.is_quiet(),
            input.mouse_position == (Point { x: 0, y: 0 }),
            input.wheel_move == 0,
            input.clipboard is None,
    {
        FrameInput {
            mouse_position: Point { x: 0, y: 0 },
            mouse_left: KeyState::idle(),
            wheel_move: 0,
            frame_time,
            ctrl: false,
            shift: false,
            key_a: false,
            key_c: false,
            key_x: false,
            key_v: false,
            escape: false,
            left: KeyState::idle(),
            right: KeyState::idle(),
            home: KeyState::idle(),
            end: KeyState::idle(),
            backspace: KeyState::idle(),
            delete: KeyState::idle(),
            chars: Vec::new(),
            clipboard: None,
        }
    }

    /// No key or button is pressed, held or released and nothing is typed.
    pub open spec fn is_quiet(self) -> bool {
        let idle = KeyState { pressed: false, down: false, released: false };
        &&& self.mouse_left == idle
        &&& !self.ctrl
        &&& !self.shift
        &&& !self.key_a
        &&& !self.key_c
        &&& !self.key_x
        &&& !self.key_v
        &&& !self.escape
        &&& self.left == idle
        &&& self.right == idle
        &&& self.home == idle
        &&& self.end == idle
        &&& self.backspace == idle
        &&& self.delete == idle
        &&& self.chars@.len() == 0
    }

    /// Nothing happened in this frame that happens at an instant: no key or
    /// button went down or came up, and no character was typed. Keys may be
    /// held.
    pub open spec fn no_edges(self) -> bool {
        &&& !self.mouse_left.edged()
        &&& !self.key_a
        &&& !self.key_c
        &&& !self.key_x
        &&& !self.key_v
        &&& !self.escape
        &&& !self.left.edged()
        &&& !self.right.edged()
        &&& !self.home.edged()
        &&& !self.end.edged()
        &&& !self.backspace.edged()
        &&& !self.delete.edged()
        &&& self.chars@.len() == 0
    }

    /// A frame in which `c` is typed and nothing else is done: the mouse
    /// button, the navigation and deletion keys and control are up.
    pub open spec fn types(self, c: char) -> bool {
        let idle = KeyState { pressed: false, down: false, released: false };
        &&& self.mouse_left == idle
        &&& !self.ctrl
        &&& self.left == idle
        &&& self.right == idle
        &&& self.home == idle
        &&& self.end == idle
        &&& self.backspace == idle
        &&& self.delete == idle
        &&& self.chars@ == seq![c]
    }

    /// A frame in which nothing is done but, perhaps, with backspace: the
    /// mouse button, the navigation keys, delete and control are up and
    /// nothing is typed.
    pub open spec fn only_backspace(self) -> bool {
        let idle = KeyState { pressed: false, down: false, released: false };
        &&& self.mouse_left == idle
        &&& !self.ctrl
        &&& self.left == idle
        &&& self.right == idle
        &&& self.home == idle
        &&& self.end == idle
        &&& self.delete == idle
        &&& self.chars@.len() == 0
    }

    /// A frame in which backspace goes down and nothing else is done.
    pub open spec fn presses_backspace(self) -> bool {
        &&& self.only_backspace()
        &&& self.backspace == (KeyState { pressed: true, down: true, released: false })
    }

    /// A frame in which backspace stays down and nothing else is done.
    pub open spec fn holds_backspace(self) -> bool {
        &&& self.only_backspace()
        &&& self.backspace == (KeyState { pressed: false, down: true, released: false })
    }

    /// The clipboard text as a sequence, where there is one.
    pub open spec fn clipboard_text(self) -> Option<Seq<char>> {
        match self.clipboard {
            Some(text) => Some(text@),
            None => None,
        }
    }
}

} // verus!
