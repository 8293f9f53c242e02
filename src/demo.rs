use vstd::prelude::*;

verus! {

/// A key as the demo tells keys apart: the popup key, or any other.
#[derive(Clone, Copy, Debug, PartialEq, Eq, Structural)]
pub enum Key {
    P,
    Other,
}

/// The demo window's state: whether its popup is to be shown.
#[derive(Clone, Copy, Debug, PartialEq, Eq, Structural)]
pub struct DemoGui {
    popup_visible: bool,
}

impl View for DemoGui {
    type V = bool;

    /// Whether the popup is shown.
    closed spec fn view(&self) -> bool {
        self.popup_visible
    }
}

impl DemoGui {
    /// A demo with its popup hidden.
    pub fn new() -> (r: DemoGui)
        ensures
            !r@,
    {
        DemoGui { popup_visible: false }
    }

    /// Shows the popup from the next frame on.
    pub fn open_popup(&mut self)
        ensures
            final(self)@,
    {
        self.popup_visible = true;
    }

    /// Hides the popup.
    pub fn close_popup(&mut self)
        ensures
            !final(self)@,
    {
        self.popup_visible = false;
    }

    /// Whether the popup is to be opened this frame.
    pub fn popup_visible(&self) -> (r: bool)
        ensures
            r == self@,
    {
        self.popup_visible
    }

    /// A key press: `P` shows the popup, any other key leaves it as it was.
    pub fn key_down(&mut self, key: Key)
        ensures
            final(self)@ == (key is P || old(self)@),
    {
        if key == Key::P {
            self.open_popup();
        }
    }
}

} // verus!
