//! Keyboard and mouse state, owned by the host loop and passed by reference to
//! whatever needs to query it.
use vstd::prelude::*;

verus! {

/// Number of key codes tracked, one per virtual key code of the windowing
/// layer; key codes are indices below it.
pub const KEY_COUNT: usize = 163;

/// A mouse button; buttons other than the three tracked ones carry their code.
#[derive(Clone, Copy, Debug, PartialEq, Eq, Structural)]
pub enum MouseButton {
    Left,
    Right,
    Middle,
    Other(u16),
}

/// Which of the three tracked mouse buttons are held down.
#[derive(Clone, Copy, Debug, PartialEq, Eq, Structural)]
pub struct MouseState {
    left: bool,
    right: bool,
    middle: bool,
}

/// Whether `button` is held in `m`; untracked buttons never are.
pub open spec fn button_held(m: MouseState, button: MouseButton) -> bool {
    match button {
        MouseButton::Left => m.spec_left(),
        MouseButton::Right => m.spec_right(),
        MouseButton::Middle => m.spec_middle(),
        MouseButton::Other(_) => false,
    }
}

impl MouseState {
    pub closed spec fn spec_left(&self) -> bool {
        self.left
    }

    pub closed spec fn spec_right(&self) -> bool {
        self.right
    }

    pub closed spec fn spec_middle(&self) -> bool {
        self.middle
    }

    /// No button held.
    pub fn new() -> (r: MouseState)
        ensures
            forall|b: MouseButton| !button_held(r, b),
    {
        MouseState { left: false, right: false, middle: false }
    }

    /// Records that `button` went down (`pressed`) or up; untracked buttons
    /// change nothing.
    pub fn set_button(&mut self, button: MouseButton, pressed: bool)
        ensures
            forall|b: MouseButton|
                #[trigger] button_held(*final(self), b) == if b == button && !(b is Other) {
                    pressed
                } else {
                    button_held(*old(self), b)
                },
    {
        match button {
            MouseButton::Left => self.left = pressed,
            MouseButton::Right => self.right = pressed,
            MouseButton::Middle => self.middle = pressed,
            MouseButton::Other(_) => {},
        }
    }

    pub fn is_pressed(&self, button: MouseButton) -> (r: bool)
        ensures
            r == button_held(*self, button),
    {
        match button {
            MouseButton::Left => self.left,
            MouseButton::Right => self.right,
            MouseButton::Middle => self.middle,
            MouseButton::Other(_) => false,
        }
    }
}

/// What an `InputState` holds: the held state of each key code, and the mouse.
pub struct InputModel {
    pub keys: Seq<bool>,
    pub mouse: MouseState,
}

/// The keys and mouse buttons currently held down.
pub struct InputState {
    keys: Vec<bool>,
    mouse: MouseState,
}

impl View for InputState {
    type V = InputModel;

    closed spec fn view(&self) -> InputModel {
        InputModel { keys: self.keys@, mouse: self.mouse }
    }
}

impl InputState {
    pub open spec fn well_formed(&self) -> bool {
        self@.keys.len() == KEY_COUNT
    }

    /// Nothing held.
    pub fn new() -> (r: InputState)
        ensures
            r.well_formed(),
            forall|k: int| 0 <= k < KEY_COUNT ==> !(#[trigger] r@.keys[k]),
            forall|b: MouseButton| !button_held(r@.mouse, b),
    {
        let mut keys: Vec<bool> = Vec::new();
        let mut i: usize = 0;
        while i < KEY_COUNT
            invariant
                i <= KEY_COUNT,
                keys@.len() == i,
                forall|k: int| 0 <= k < i ==> !(#[trigger] keys@[k]),
            decreases KEY_COUNT - i,
        {
            keys.push(false);
            i = i + 1;
        }
        InputState { keys, mouse: MouseState::new() }
    }

    /// Records that key `code` went down, and returns whether it was already
    /// held (an auto-repeat).
    pub fn press_key(&mut self, code: usize) -> (repeat: bool)
        requires
            old(self).well_formed(),
            code < KEY_COUNT,
        ensures
            final(self).well_formed(),
            repeat == old(self)@.keys[code as int],
            final(self)@ == (InputModel {
                keys: old(self)@.keys.update(code as int, true),
                ..old(self)@
            }),
    {
        let repeat = self.keys[code];
        self.keys.set(code, true);
        repeat
    }

    /// Records that key `code` went up.
    pub fn release_key(&mut self, code: usize)
        requires
            old(self).well_formed(),
            code < KEY_COUNT,
        ensures
            final(self).well_formed(),
            final(self)@ == (InputModel {
                keys: old(self)@.keys.update(code as int, false),
                ..old(self)@
            }),
    {
        self.keys.set(code, false);
    }

    pub fn is_key_pressed(&self, code: usize) -> (r: bool)
        requires
            self.well_formed(),
            code < KEY_COUNT,
        ensures
            r == self@.keys[code as int],
    {
        self.keys[code]
    }

    /// Records that a mouse button went down (`pressed`) or up.
    pub fn set_mouse_button(&mut self, button: MouseButton, pressed: bool)
        ensures
            final(self)@.keys == old(self)@.keys,
            forall|b: MouseButton|
                #[trigger] button_held(final(self)@.mouse, b) == if b == button && !(b is Other) {
                    pressed
                } else {
                    button_held(old(self)@.mouse, b)
                },
    {
        self.mouse.set_button(button, pressed);
    }

    pub fn is_mouse_button_pressed(&self, button: MouseButton) -> (r: bool)
        ensures
            r == button_held(self@.mouse, button),
    {
        self.mouse.is_pressed(button)
    }
}

} // verus!
