use vstd::prelude::*;

verus! {

/// What the event loop does after a window handled an event.
#[derive(PartialEq, Eq, Structural, Debug, Clone, Copy)]
pub enum WindowAction {
    Continue,
    Terminate,
}

/// A key press, as the window sees it.
pub enum Key {
    Esc,
    Backspace,
    Enter,
    /// A character key; `ctrl` tells whether Control was held.
    Char { c: char, ctrl: bool },
    /// Any other key, with a description of it.
    Other(String),
}

/// A piece of text to draw, with the cell where it starts.
pub struct TextAt {
    pub x: u16,
    pub y: u16,
    pub text: String,
}

/// What a window draws: its texts, and where the cursor goes.
pub struct Frame {
    pub texts: Vec<TextAt>,
    pub cursor_x: u16,
    pub cursor_y: u16,
}

/// Something the client's event loop drives: it takes in queued messages,
/// key presses and resizes, and says what to draw.
pub trait Window {
    /// What the window's own state keeps true between events.
    spec fn inv(&self) -> bool;

    fn update(&mut self)
        requires
            old(self).inv(),
        ensures
            final(self).inv(),
    ;

    fn handle_keypress(&mut self, key: Key) -> (r: WindowAction)
        requires
            old(self).inv(),
        ensures
            final(self).inv(),
    ;

    fn handle_resize(&mut self, width: u16, height: u16) -> (r: WindowAction)
        requires
            old(self).inv(),
        ensures
            final(self).inv(),
    ;

    fn render(&self) -> (r: Frame)
        requires
            self.inv(),
    ;
}

} // verus!
