//! Input as the host program reports it once per frame.

use vstd::prelude::*;
use crate::shape::rect::Pos;

verus! {

/// A mouse button.
#[derive(Clone, Copy, Debug, PartialEq, Eq, Structural, Hash)]
pub enum Mouse {
    /// The primary button.
    Left,
    /// The wheel button.
    Middle,
    /// The secondary button.
    Right,
}

/// A keyboard key.
#[derive(Clone, Copy, Debug, PartialEq, Eq, Structural, Hash)]
pub enum Key {
    Backspace,
    Tab,
    Return,
    Escape,
    Space,
    Exclaim,
    Quotedbl,
    Hash,
    Dollar,
    Percent,
    Ampersand,
    Quote,
    LeftParen,
    RightParen,
    Asterisk,
    Plus,
    Comma,
    Minus,
    Period,
    Slash,
    Num0,
    Num1,
    Num2,
    Num3,
    Num4,
    Num5,
    Num6,
    Num7,
    Num8,
    Num9,
    Colon,
    Semicolon,
    Less,
    Equals,
    Greater,
    Question,
    At,
    LeftBracket,
    Backslash,
    RightBracket,
    Caret,
    Underscore,
    Backquote,
    A,
    B,
    C,
    D,
    E,
    F,
    G,
    H,
    I,
    J,
    K,
    L,
    M,
    N,
    O,
    P,
    Q,
    R,
    S,
    T,
    U,
    V,
    W,
    X,
    Y,
    Z,
    Delete,
    CapsLock,
    F1,
    F2,
    F3,
    F4,
    F5,
    F6,
    F7,
    F8,
    F9,
    F10,
    F11,
    F12,
    PrintScreen,
    ScrollLock,
    Pause,
    Insert,
    Home,
    PageUp,
    End,
    PageDown,
    Right,
    Left,
    Down,
    Up,
    NumLock,
    LCtrl,
    LShift,
    LAlt,
    LGui,
    RCtrl,
    RShift,
    RAlt,
    RGui,
    /// Any key without a name of its own.
    Unknown,
}

/// The mouse as seen at one frame: where the pointer is, how far the wheel
/// moved since the frame before, and which buttons are held.
#[derive(Clone, Copy, Debug, PartialEq, Eq, Structural, Hash, Default)]
pub struct MouseState {
    /// Pointer position in window coordinates.
    pub pos: Pos,
    /// Horizontal wheel movement since the previous frame.
    pub xrel: i32,
    /// Vertical wheel movement since the previous frame.
    pub yrel: i32,
    /// Whether the primary button is held.
    pub left: bool,
    /// Whether the wheel button is held.
    pub middle: bool,
    /// Whether the secondary button is held.
    pub right: bool,
}

impl MouseState {
    /// A pointer in the top-left corner with no button held and the wheel at
    /// rest.
    pub open spec fn default_state() -> MouseState {
        MouseState { pos: Pos { x: 0, y: 0 }, xrel: 0, yrel: 0, left: false, middle: false, right: false }
    }

    /// A pointer at `(x, y)` with no button held and the wheel at rest.
    pub fn at(x: i32, y: i32) -> (m: Self)
        ensures
            m == (MouseState {
                pos: Pos { x, y },
                xrel: 0,
                yrel: 0,
                left: false,
                middle: false,
                right: false,
            }),
    {
        MouseState { pos: Pos { x, y }, xrel: 0, yrel: 0, left: false, middle: false, right: false }
    }

    /// Whether `btn` is held.
    pub open spec fn holds(self, btn: Mouse) -> bool {
        match btn {
            Mouse::Left => self.left,
            Mouse::Middle => self.middle,
            Mouse::Right => self.right,
        }
    }

    /// Whether `btn` is held.
    pub fn is_down(&self, btn: Mouse) -> (down: bool)
        ensures
            down == self.holds(btn),
    {
        match btn {
            Mouse::Left => self.left,
            Mouse::Middle => self.middle,
            Mouse::Right => self.right,
        }
    }

    /// This state with `btn` held or released.
    pub fn with_button(self, btn: Mouse, down: bool) -> (m: Self)
        ensures
            m == with_held(self, Some(btn), down),
            m.holds(btn) == down,
            forall|other: Mouse| other != btn ==> m.holds(other) == self.holds(other),
    {
        let mut m = self;
        match btn {
            Mouse::Left => {
                m.left = down;
            },
            Mouse::Middle => {
                m.middle = down;
            },
            Mouse::Right => {
                m.right = down;
            },
        }
        m
    }
}

/// A button of a game controller.
#[derive(Clone, Copy, Debug, PartialEq, Eq, Structural, Hash)]
pub enum Button {
    A,
    B,
    X,
    Y,
    Back,
    Guide,
    Start,
    LeftStick,
    RightStick,
    LeftShoulder,
    RightShoulder,
    DPadUp,
    DPadDown,
    DPadLeft,
    DPadRight,
}

/// An axis of a game controller.
#[derive(Clone, Copy, Debug, PartialEq, Eq, Structural, Hash)]
pub enum Axis {
    LeftX,
    LeftY,
    RightX,
    RightY,
    TriggerLeft,
    TriggerRight,
}

/// What happened to the window.
#[derive(Clone, Copy, Debug, PartialEq, Eq, Structural, Hash)]
#[non_exhaustive]
pub enum WindowEvent {
    Shown,
    Hidden,
    Moved(i32, i32),
    Resized(i32, i32),
    Minimized,
    Maximized,
    Restored,
    Enter,
    Leave,
    FocusGained,
    FocusLost,
    Close,
    Unknown,
}

/// What the window system reports.
#[derive(Clone, Debug, PartialEq, Eq)]
#[non_exhaustive]
pub enum Event {
    Quit,
    AppTerminating,
    Window { win_event: WindowEvent },
    KeyDown { keycode: Option<Key>, repeat: bool },
    KeyUp { keycode: Option<Key>, repeat: bool },
    TextInput { text: String },
    MouseMotion { x: i32, y: i32, xrel: i32, yrel: i32 },
    MouseButtonDown { mouse_btn: Option<Mouse>, x: i32, y: i32 },
    MouseButtonUp { mouse_btn: Option<Mouse>, x: i32, y: i32 },
    MouseWheel { x: i32, y: i32 },
    JoyAxisMotion { which: u32, axis_idx: u8, value: i16 },
    JoyBallMotion { which: u32, ball_idx: u8, xrel: i16, yrel: i16 },
    JoyButtonDown { which: u32, button_idx: u8 },
    JoyButtonUp { which: u32, button_idx: u8 },
    JoyDeviceAdded { which: u32 },
    JoyDeviceRemoved { which: u32 },
    ControllerAxisMotion { which: u32, axis: Axis, value: i16 },
    ControllerButtonDown { which: u32, button: Button },
    ControllerButtonUp { which: u32, button: Button },
    ControllerDeviceAdded { which: u32 },
    ControllerDeviceRemoved { which: u32 },
    ControllerDeviceRemapped { which: u32 },
    Unknown,
}

/// The input of a frame as it builds up from the events of the frame.
#[derive(Debug)]
pub struct Input {
    /// The mouse.
    pub mouse: MouseState,
    /// The keys that are held, none of them twice, in the order in which they
    /// went down.
    pub keys: Vec<Key>,
    /// The key that went down last at this frame, if any.
    pub entered: Option<Key>,
    /// Whether the program was asked to end.
    pub quit: bool,
}

/// The mouse `mouse` with `btn` held or not, if `btn` is a button that the
/// engine knows.
pub open spec fn with_held(mouse: MouseState, btn: Option<Mouse>, down: bool) -> MouseState {
    match btn {
        Some(Mouse::Left) => MouseState { left: down, ..mouse },
        Some(Mouse::Middle) => MouseState { middle: down, ..mouse },
        Some(Mouse::Right) => MouseState { right: down, ..mouse },
        None => mouse,
    }
}

/// The mouse after an event.
pub open spec fn mouse_after(mouse: MouseState, event: Event) -> MouseState {
    match event {
        Event::MouseMotion { x, y, xrel, yrel } => MouseState { pos: Pos { x, y }, ..mouse },
        Event::MouseButtonDown { mouse_btn, x, y } => with_held(
            MouseState { pos: Pos { x, y }, ..mouse },
            mouse_btn,
            true,
        ),
        Event::MouseButtonUp { mouse_btn, x, y } => with_held(
            MouseState { pos: Pos { x, y }, ..mouse },
            mouse_btn,
            false,
        ),
        Event::MouseWheel { x, y } => MouseState { xrel: x, yrel: y, ..mouse },
        _ => mouse,
    }
}

/// The held keys after an event: a key that goes down is added at the end
/// unless it is held already, a key that goes up is taken out.
pub open spec fn keys_after(keys: Seq<Key>, event: Event, after: Seq<Key>) -> bool {
    match event {
        Event::KeyDown { keycode: Some(key), repeat } => after == if keys.contains(key) {
            keys
        } else {
            keys.push(key)
        },
        Event::KeyUp { keycode: Some(key), repeat } => without(keys, key, after),
        _ => after == keys,
    }
}

/// Whether `after` is `keys` without the first `key` in it, or `keys` itself
/// if `key` is not in it.
pub open spec fn without(keys: Seq<Key>, key: Key, after: Seq<Key>) -> bool {
    if keys.contains(key) {
        exists|i: int|
            0 <= i < keys.len() && keys[i] == key && !keys.take(i).contains(key) && after
                == #[trigger] keys.remove(i)
    } else {
        after == keys
    }
}

/// Whether an event asks the program to end.
pub open spec fn asks_to_quit(event: Event) -> bool {
    match event {
        Event::Quit => true,
        Event::AppTerminating => true,
        Event::Window { win_event: WindowEvent::Close } => true,
        _ => false,
    }
}

impl Input {
    /// No key and no button held, the pointer in the top-left corner.
    pub fn new() -> (input: Self)
        ensures
            input.mouse == MouseState::default_state(),
            input.keys@ == Seq::<Key>::empty(),
            input.entered is None,
            !input.quit,
    {
        Input { mouse: MouseState::at(0, 0), keys: Vec::new(), entered: None, quit: false }
    }

    /// Starts the input of a new frame: the wheel is at rest and no key has
    /// gone down yet. What is held stays held.
    pub fn begin_frame(&mut self)
        ensures
            final(self).mouse == (MouseState { xrel: 0, yrel: 0, ..old(self).mouse }),
            final(self).keys == old(self).keys,
            final(self).entered is None,
            final(self).quit == old(self).quit,
    {
        self.mouse.xrel = 0;
        self.mouse.yrel = 0;
        self.entered = None;
    }

    /// Takes an event into account.
    pub fn handle_event(&mut self, event: &Event)
        ensures
            final(self).mouse == mouse_after(old(self).mouse, *event),
            keys_after(old(self).keys@, *event, final(self).keys@),
            old(self).keys@.no_duplicates() ==> final(self).keys@.no_duplicates(),
            final(self).entered == match *event {
                Event::KeyDown { keycode: Some(key), repeat } => Some(key),
                _ => old(self).entered,
            },
            final(self).quit == (old(self).quit || asks_to_quit(*event)),
    {
        match event {
            Event::Quit => {
                self.quit = true;
            },
            Event::AppTerminating => {
                self.quit = true;
            },
            Event::Window { win_event } => {
                match win_event {
                    WindowEvent::Close => {
                        self.quit = true;
                    },
                    _ => {},
                }
            },
            Event::KeyDown { keycode, repeat: _ } => {
                match keycode {
                    Some(key) => {
                        self.entered = Some(*key);
                        match position(&self.keys, *key) {
                            Some(_) => {},
                            None => {
                                self.keys.push(*key);
                                proof {
                                    let before = old(self).keys@;
                                    if before.no_duplicates() {
                                        assert forall|i: int, j: int|
                                            0 <= i < j < self.keys@.len() implies self.keys@[i]
                                            != self.keys@[j] by {
                                            if j < before.len() {
                                                assert(before[i] != before[j]);
                                            } else {
                                                assert(before.contains(before[i]));
                                            }
                                        }
                                    }
                                }
                            },
                        }
                    },
                    None => {},
                }
            },
            Event::KeyUp { keycode, repeat: _ } => {
                match keycode {
                    Some(key) => {
                        match position(&self.keys, *key) {
                            Some(i) => {
                                self.keys.remove(i);
                                proof {
                                    let before = old(self).keys@;
                                    assert(self.keys@ == before.remove(i as int));
                                    if before.no_duplicates() {
                                        assert forall|a: int, b: int|
                                            0 <= a < b < self.keys@.len() implies self.keys@[a]
                                            != self.keys@[b] by {
                                            let a0 = if a < i {
                                                a
                                            } else {
                                                a + 1
                                            };
                                            let b0 = if b < i {
                                                b
                                            } else {
                                                b + 1
                                            };
                                            assert(before[a0] != before[b0]);
                                        }
                                    }
                                }
                            },
                            None => {},
                        }
                    },
                    None => {},
                }
            },
            Event::MouseMotion { x, y, xrel: _, yrel: _ } => {
                self.mouse.pos = Pos { x: *x, y: *y };
            },
            Event::MouseButtonDown { mouse_btn, x, y } => {
                self.mouse.pos = Pos { x: *x, y: *y };
                match mouse_btn {
                    Some(btn) => {
                        self.mouse = self.mouse.with_button(*btn, true);
                    },
                    None => {},
                }
            },
            Event::MouseButtonUp { mouse_btn, x, y } => {
                self.mouse.pos = Pos { x: *x, y: *y };
                match mouse_btn {
                    Some(btn) => {
                        self.mouse = self.mouse.with_button(*btn, false);
                    },
                    None => {},
                }
            },
            Event::MouseWheel { x, y } => {
                self.mouse.xrel = *x;
                self.mouse.yrel = *y;
            },
            _ => {},
        }
    }
}

/// Where `key` stands first in `keys`; nothing if it is not in them.
pub fn position(keys: &Vec<Key>, key: Key) -> (at: Option<usize>)
    ensures
        at is Some <==> keys@.contains(key),
        at matches Some(i) ==> i < keys@.len() && keys@[i as int] == key && !keys@.take(
            i as int,
        ).contains(key),
{
    let mut i: usize = 0;
    while i < keys.len()
        invariant
            0 <= i <= keys.len(),
            forall|j: int| 0 <= j < i ==> keys@[j] != key,
        decreases keys.len() - i,
    {
        if keys[i] == key {
            assert forall|j: int| 0 <= j < keys@.take(i as int).len() implies keys@.take(
                i as int,
            )[j] != key by {}
            return Some(i);
        }
        i += 1;
    }
    None
}

} // verus!
