use vstd::prelude::*;

verus! {

/// A mouse button as the host's event loop reports it.
#[derive(Clone, Copy, Debug, PartialEq, Eq, Structural)]
pub enum MouseButton {
    Left,
    Right,
    Middle,
    Other(u8),
}

/// The pressed flags (left, right, middle) after a press of `button`.
pub fn pressed_buttons(button: MouseButton) -> (r: (bool, bool, bool))
    ensures
        r == (button is Left, button is Right, button is Middle),
{
    match button {
        MouseButton::Left => (true, false, false),
        MouseButton::Right => (false, true, false),
        MouseButton::Middle => (false, false, true),
        MouseButton::Other(_) => (false, false, false),
    }
}

/// Clamps a mathematical integer into the range of `i32`.
pub open spec fn clamp_i32(v: int) -> i32 {
    if v > i32::MAX {
        i32::MAX
    } else if v < i32::MIN {
        i32::MIN
    } else {
        v as i32
    }
}

/// The five button flags the UI reads: left, right, middle, then two extra
/// buttons that are never reported pressed.
pub open spec fn frame_buttons(pressed: (bool, bool, bool)) -> Seq<bool> {
    seq![pressed.0, pressed.1, pressed.2, false, false]
}

/// The mouse input handed to the UI at the start of one frame.
#[derive(Clone, Copy, Debug, PartialEq, Eq)]
pub struct MouseFrame {
    /// Cursor position in whole pixels.
    pub pos: (i32, i32),
    /// Pressed flags of the UI's five mouse buttons.
    pub down: [bool; 5],
    /// Scroll steps since the previous frame.
    pub wheel: i32,
}

/// The last known mouse state, kept between the host's input callbacks and
/// read once per frame.
#[derive(Clone, Copy, Debug, PartialEq, Eq)]
pub struct MouseState {
    /// Last reported cursor position in whole pixels.
    pub pos: (i32, i32),
    /// Whether the left, right and middle buttons are held.
    pub pressed: (bool, bool, bool),
    /// Scroll steps accumulated since the last frame.
    pub wheel: i32,
}

impl MouseState {
    /// The state after a cursor move to `(x, y)`.
    pub open spec fn moved_to(self, x: i32, y: i32) -> MouseState {
        MouseState { pos: (x, y), ..self }
    }

    /// The state after the button flags are set to `pressed`.
    pub open spec fn with_pressed(self, pressed: (bool, bool, bool)) -> MouseState {
        MouseState { pressed, ..self }
    }

    /// The state after a scroll of `delta` steps, saturating at the bounds of `i32`.
    pub open spec fn scrolled(self, delta: i32) -> MouseState {
        MouseState { wheel: clamp_i32(self.wheel + delta), ..self }
    }

    /// The state after a frame has consumed the accumulated scroll.
    pub open spec fn after_frame(self) -> MouseState {
        MouseState { wheel: 0, ..self }
    }

    /// A cursor at the origin, no button held, no scroll pending.
    pub fn new() -> (r: MouseState)
        ensures
            r.pos == (0i32, 0i32),
            r.pressed == (false, false, false),
            r.wheel == 0,
    {
        MouseState { pos: (0, 0), pressed: (false, false, false), wheel: 0 }
    }

    /// Records a cursor move.
    pub fn update_mouse_pos(&mut self, x: i32, y: i32)
        ensures
            *final(self) == old(self).moved_to(x, y),
    {
        self.pos = (x, y);
    }

    /// Records which of the left, right and middle buttons are held.
    pub fn update_mouse_down(&mut self, pressed: (bool, bool, bool))
        ensures
            *final(self) == old(self).with_pressed(pressed),
    {
        self.pressed = pressed;
    }

    /// Adds a scroll of `delta` steps to the amount pending for the next frame.
    pub fn update_mouse_wheel(&mut self, delta: i32)
        ensures
            *final(self) == old(self).scrolled(delta),
    {
        let sum: i64 = self.wheel as i64 + delta as i64;
        let w: i32 = if sum > i32::MAX as i64 {
            i32::MAX
        } else if sum < i32::MIN as i64 {
            i32::MIN
        } else {
            sum as i32
        };
        self.wheel = w;
    }

    /// Hands out this frame's mouse input and clears the pending scroll.
    pub fn begin_frame(&mut self) -> (r: MouseFrame)
        ensures
            r.pos == old(self).pos,
            r.down@ == frame_buttons(old(self).pressed),
            r.wheel == old(self).wheel,
            *final(self) == old(self).after_frame(),
    {
        let down: [bool; 5] = [self.pressed.0, self.pressed.1, self.pressed.2, false, false];
        let r = MouseFrame { pos: self.pos, down, wheel: self.wheel };
        self.wheel = 0;
        assert(r.down@ =~= frame_buttons(old(self).pressed));
        r
    }
}

/// A cursor move shows in the position that the next frame reads, whatever
/// came before it.
pub proof fn lemma_motion_reaches_next_frame(s: MouseState, x: i32, y: i32)
    ensures
        s.moved_to(x, y).pos == (x, y),
        s.moved_to(x, y).after_frame().pos == (x, y),
{
}

/// A scroll of `w` steps after a frame is read in full by the next frame, and
/// the frame after that reads no scroll.
pub proof fn lemma_wheel_read_once(s: MouseState, w: i32)
    ensures
        s.after_frame().scrolled(w).wheel == w,
        s.after_frame().scrolled(w).after_frame().wheel == 0,
{
}

/// Scrolls between two frames add up, as long as the sum fits in `i32`.
pub proof fn lemma_wheel_accumulates(s: MouseState, a: i32, b: i32)
    requires
        i32::MIN <= a + b <= i32::MAX,
    ensures
        s.after_frame().scrolled(a).scrolled(b).wheel == a + b,
{
}

/// A frame changes neither the cursor position nor the held buttons.
pub proof fn lemma_frame_keeps_pointer(s: MouseState)
    ensures
        s.after_frame().pos == s.pos,
        s.after_frame().pressed == s.pressed,
{
}

} // verus!
