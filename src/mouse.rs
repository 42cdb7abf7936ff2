//! Mouse input: buttons, button sets, and mouse events in display points.
use vstd::prelude::*;
use crate::geometry::{Point, Scale, dp_floor, input_coord_ok};
use crate::keyboard::Modifiers;

verus! {

/// A mouse button, or none for motion.
#[derive(Clone, Copy, Debug, PartialEq, Eq, Hash, Structural)]
pub enum MouseButton {
    NoButton,
    Left,
    Right,
    Middle,
    X1,
    X2,
}

/// A mouse button as the native windowing layer names it.
#[derive(Clone, Copy, Debug, PartialEq, Eq, Hash, Structural)]
pub enum NativeMouseButton {
    Left,
    Right,
    Middle,
    Other(u16),
}

/// The set of mouse buttons held down.
#[derive(Clone, Copy, Debug, PartialEq, Eq, Hash, Structural)]
pub struct MouseButtons {
    pub left: bool,
    pub right: bool,
    pub middle: bool,
    pub x1: bool,
    pub x2: bool,
}

impl MouseButtons {
    /// The button is in the set.
    pub open spec fn has(self, b: MouseButton) -> bool {
        match b {
            MouseButton::NoButton => false,
            MouseButton::Left => self.left,
            MouseButton::Right => self.right,
            MouseButton::Middle => self.middle,
            MouseButton::X1 => self.x1,
            MouseButton::X2 => self.x2,
        }
    }

    /// The empty set.
    pub fn new() -> (r: MouseButtons)
        ensures
            r == (MouseButtons { left: false, right: false, middle: false, x1: false, x2: false }),
            forall|b: MouseButton| !r.has(b),
    {
        MouseButtons { left: false, right: false, middle: false, x1: false, x2: false }
    }

    /// Adds `b` to the set; `NoButton` adds nothing.
    pub fn insert(&mut self, b: MouseButton)
        ensures
            forall|c: MouseButton|
                final(self).has(c) == (old(self).has(c) || (c == b && c != MouseButton::NoButton)),
            final(self).left == (old(self).left || b == MouseButton::Left),
            final(self).right == (old(self).right || b == MouseButton::Right),
            final(self).middle == (old(self).middle || b == MouseButton::Middle),
            final(self).x1 == (old(self).x1 || b == MouseButton::X1),
            final(self).x2 == (old(self).x2 || b == MouseButton::X2),
    {
        match b {
            MouseButton::NoButton => {},
            MouseButton::Left => self.left = true,
            MouseButton::Right => self.right = true,
            MouseButton::Middle => self.middle = true,
            MouseButton::X1 => self.x1 = true,
            MouseButton::X2 => self.x2 = true,
        }
    }

    pub fn contains(&self, b: MouseButton) -> (r: bool)
        ensures
            r == self.has(b),
    {
        match b {
            MouseButton::NoButton => false,
            MouseButton::Left => self.left,
            MouseButton::Right => self.right,
            MouseButton::Middle => self.middle,
            MouseButton::X1 => self.x1,
            MouseButton::X2 => self.x2,
        }
    }
}

/// The toolkit's button for a native button; buttons past the third have none.
pub fn convert_mouse_button(mouse_button: NativeMouseButton) -> (r: Option<MouseButton>)
    ensures
        r == (match mouse_button {
            NativeMouseButton::Left => Some(MouseButton::Left),
            NativeMouseButton::Right => Some(MouseButton::Right),
            NativeMouseButton::Middle => Some(MouseButton::Middle),
            NativeMouseButton::Other(_) => None::<MouseButton>,
        }),
{
    match mouse_button {
        NativeMouseButton::Left => Some(MouseButton::Left),
        NativeMouseButton::Right => Some(MouseButton::Right),
        NativeMouseButton::Middle => Some(MouseButton::Middle),
        _ => None,
    }
}

/// The button with index `button` in the order left, middle, right, back, forward.
pub fn mouse_button(button: i16) -> (r: Option<MouseButton>)
    ensures
        r == (if button == 0 {
            Some(MouseButton::Left)
        } else if button == 1 {
            Some(MouseButton::Middle)
        } else if button == 2 {
            Some(MouseButton::Right)
        } else if button == 3 {
            Some(MouseButton::X1)
        } else if button == 4 {
            Some(MouseButton::X2)
        } else {
            None
        }),
{
    match button {
        0 => Some(MouseButton::Left),
        1 => Some(MouseButton::Middle),
        2 => Some(MouseButton::Right),
        3 => Some(MouseButton::X1),
        4 => Some(MouseButton::X2),
        _ => None,
    }
}

/// The set of buttons in a bit mask: bit 0 left, 1 right, 2 middle, 3 back, 4 forward.
pub fn mouse_buttons(mask: u16) -> (r: MouseButtons)
    ensures
        r.left == (mask & 1 != 0),
        r.right == (mask & 2 != 0),
        r.middle == (mask & 4 != 0),
        r.x1 == (mask & 8 != 0),
        r.x2 == (mask & 16 != 0),
{
    let mut buttons = MouseButtons::new();
    if mask & 1 != 0 {
        buttons.insert(MouseButton::Left);
    }
    if mask & 2 != 0 {
        buttons.insert(MouseButton::Right);
    }
    if mask & 4 != 0 {
        buttons.insert(MouseButton::Middle);
    }
    if mask & 8 != 0 {
        buttons.insert(MouseButton::X1);
    }
    if mask & 16 != 0 {
        buttons.insert(MouseButton::X2);
    }
    buttons
}

/// A mouse event as the toolkit receives it, positioned in display points.
#[derive(Clone, Copy, Debug, PartialEq, Eq, Structural)]
pub struct MouseEvent {
    pub pos: Point,
    pub buttons: MouseButtons,
    pub mods: Modifiers,
    pub count: u8,
    pub focus: bool,
    pub button: MouseButton,
    pub wheel_delta: Point,
}

/// `e` is the event for a pointer at device pixel `(px, py)` under `scale`:
/// placed at the display point at or before it, with `button` and `count`, no
/// held buttons or modifiers, no focus and no wheel motion.
pub open spec fn is_pointer_event(
    e: MouseEvent,
    px: i64,
    py: i64,
    scale: Scale,
    button: MouseButton,
    count: u8,
) -> bool {
    &&& e.pos.x == dp_floor(px as int, scale.x_spec() as int)
    &&& e.pos.y == dp_floor(py as int, scale.y_spec() as int)
    &&& e.button == button
    &&& e.count == count
    &&& e.buttons == MouseButtons { left: false, right: false, middle: false, x1: false, x2: false }
    &&& e.mods == Modifiers { bits: 0 }
    &&& !e.focus
    &&& e.wheel_delta == Point { x: 0, y: 0 }
}

/// The event for a pointer at device pixel `(px, py)`: `count` is 1 for a press
/// and 0 otherwise. Held buttons and modifiers are not tracked and are empty.
pub fn mouse_event_at(px: i64, py: i64, scale: Scale, button: MouseButton, count: u8) -> (r:
    MouseEvent)
    requires
        input_coord_ok(px as int),
        input_coord_ok(py as int),
    ensures
        r.pos.x == dp_floor(px as int, scale.x_spec() as int),
        r.pos.y == dp_floor(py as int, scale.y_spec() as int),
        r.button == button,
        r.count == count,
        forall|b: MouseButton| !r.buttons.has(b),
        !r.focus,
        r.wheel_delta == (Point { x: 0, y: 0 }),
        is_pointer_event(r, px, py, scale, button, count),
{
    MouseEvent {
        pos: Point::from_px(px, py, scale),
        buttons: MouseButtons::new(),
        mods: Modifiers::empty(),
        count,
        focus: false,
        button,
        wheel_delta: Point::zero(),
    }
}

} // verus!
