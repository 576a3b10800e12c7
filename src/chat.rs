use vstd::prelude::*;
use vstd::string::StrSliceExecFns;
use crossbeam_channel::{Receiver, Sender};
use crate::channel::{disconnected_text, queued, send, try_recv};
use crate::util::Rectangle;
use crate::window::{Frame, Key, TextAt, Window, WindowAction};

verus! {

/// Relies on `String::push`: the character is appended.
#[verifier::external_body]
fn push_char(s: &mut String, c: char)
    ensures
        final(s)@ == old(s)@.push(c),
{
    s.push(c)
}

/// Relies on `String::pop`: the last character is removed and returned, if
/// there is one.
#[verifier::external_body]
fn pop_char(s: &mut String) -> (r: Option<char>)
    ensures
        old(s)@.len() == 0 ==> r is None && final(s)@ == old(s)@,
        old(s)@.len() > 0 ==> r == Some(old(s)@.last()) && final(s)@ == old(s)@.drop_last(),
{
    s.pop()
}

/// A line of `n` dashes.
pub open spec fn dashes_of(n: nat) -> Seq<char> {
    Seq::new(n, |_i: int| '-')
}

/// The part of a message that fits in `width` columns: its first `width`
/// characters.
pub open spec fn clip(m: Seq<char>, width: nat) -> Seq<char> {
    if m.len() <= width {
        m
    } else {
        m.take(width as int)
    }
}

/// The part of the prompt that fits in `width` columns: its last `width`
/// characters, so that the end being typed stays in view.
pub open spec fn prompt_tail(p: Seq<char>, width: nat) -> Seq<char> {
    if p.len() <= width {
        p
    } else {
        p.skip(p.len() - width)
    }
}

/// Whether a window of this area can be drawn: it has a row for the
/// separator and one for the prompt, and lies on the `u16` grid.
pub open spec fn drawable(area: Rectangle<u16>) -> bool {
    &&& area.h >= 2
    &&& area.x + area.w <= u16::MAX
    &&& area.y + area.h <= u16::MAX
}

/// How many of `n` history messages are shown in `rows` rows: the latest
/// ones that fit.
pub open spec fn shown_count(n: int, rows: int) -> int {
    if n <= rows {
        n
    } else {
        rows
    }
}

/// What a key press does to the prompt, from `before` to `after`, and the
/// action it asks for. Enter hands the prompt to the outgoing channel and
/// empties it, or, if the channel is gone, shows the channel's error in it
/// (see `settle_send`).
pub open spec fn key_effect(key: Key, before: Seq<char>, after: Seq<char>, r: WindowAction) -> bool {
    match key {
        Key::Esc => r == WindowAction::Terminate && after == before,
        Key::Backspace => r == WindowAction::Continue && after == if before.len() == 0 {
            before
        } else {
            before.drop_last()
        },
        Key::Char { c, ctrl } => if c == 'c' && ctrl {
            r == WindowAction::Terminate && after == before
        } else {
            r == WindowAction::Continue && after == before.push(c)
        },
        Key::Enter => r == WindowAction::Continue && (after == Seq::<char>::empty() || after
            == disconnected_text()),
        Key::Other(d) => r == WindowAction::Continue && after == "Unhandled keycode: "@ + d@,
    }
}

/// The chat view of the client: the message history above a separator, and
/// the prompt being typed below it. Messages from the server arrive on
/// `messages_in`; a submitted prompt leaves on `messages_out`.
pub struct Chat {
    rect: Rectangle<u16>,
    horizontal_separator: String,
    prompt: String,
    history: Vec<String>,
    messages_in: Receiver<String>,
    messages_out: Sender<String>,
}

impl Chat {
    pub closed spec fn area(&self) -> Rectangle<u16> {
        self.rect
    }

    pub closed spec fn prompt(&self) -> Seq<char> {
        self.prompt@
    }

    /// The messages received so far, oldest first.
    pub closed spec fn history(&self) -> Seq<String> {
        self.history@
    }

    pub closed spec fn separator(&self) -> Seq<char> {
        self.horizontal_separator@
    }

    /// The separator spans the width of the area.
    pub open spec fn wf(&self) -> bool {
        self.separator() == dashes_of(self.area().w as nat)
    }

    /// `r` is the layout of this view: see `render`.
    pub open spec fn lays_out(&self, r: &Frame) -> bool {
        &&& !drawable(self.area()) ==> {
            &&& r.texts@.len() == 0
            &&& r.cursor_x == self.area().x
            &&& r.cursor_y == self.area().y
        }
        &&& drawable(self.area()) ==> {
            let a = self.area();
            let rows = a.h - 2;
            let n = self.history().len() as int;
            let shown = shown_count(n, rows);
            let tail = prompt_tail(self.prompt(), a.w as nat);
            &&& r.texts@.len() == shown + 2
            &&& forall|i: int|
                0 <= i < shown ==> {
                    &&& (#[trigger] r.texts@[i]).x == a.x
                    &&& r.texts@[i].y == a.y + rows - shown + i
                    &&& r.texts@[i].text@ == clip(self.history()[n - shown + i]@, a.w as nat)
                }
            &&& r.texts@[shown].x == a.x
            &&& r.texts@[shown].y == a.y + a.h - 2
            &&& r.texts@[shown].text@ == self.separator()
            &&& r.texts@[shown + 1].x == a.x
            &&& r.texts@[shown + 1].y == a.y + a.h - 1
            &&& r.texts@[shown + 1].text@ == tail
            &&& r.cursor_x == a.x + tail.len()
            &&& r.cursor_y == a.y + a.h - 1
        }
    }

    fn dashes(n: u16) -> (r: String)
        ensures
            r@ == dashes_of(n as nat),
    {
        let mut s = String::new();
        let mut i: u16 = 0;
        while i < n
            invariant
                i <= n,
                s@ == dashes_of(i as nat),
            decreases n - i,
        {
            push_char(&mut s, '-');
            i = i + 1;
            assert(s@ =~= dashes_of(i as nat));
        }
        s
    }

    pub fn new(rect: Rectangle<u16>, messages_in: Receiver<String>, messages_out: Sender<String>) -> (r: Self)
        ensures
            r.wf(),
            r.area() == rect,
            r.prompt() == Seq::<char>::empty(),
            r.history() == Seq::<String>::empty(),
    {
        let horizontal_separator = Chat::dashes(rect.w);
        let prompt = String::new();
        let history = Vec::new();
        Chat { rect, prompt, horizontal_separator, history, messages_in, messages_out }
    }

    pub fn set_prompt(&mut self, prompt: String)
        requires
            old(self).wf(),
        ensures
            final(self).wf(),
            final(self).prompt() == prompt@,
            final(self).area() == old(self).area(),
            final(self).history() == old(self).history(),
    {
        self.prompt = prompt;
    }

    /// Moves the view to `rect`; the separator follows its width.
    pub fn resize(&mut self, rect: Rectangle<u16>)
        ensures
            final(self).wf(),
            final(self).area() == rect,
            final(self).prompt() == old(self).prompt(),
            final(self).history() == old(self).history(),
    {
        self.horizontal_separator = Chat::dashes(rect.w);
        self.rect = rect;
    }

    /// The prompt being typed.
    pub fn current_prompt(&self) -> (r: &str)
        ensures
            r@ == self.prompt(),
    {
        self.prompt.as_str()
    }

    /// The messages received so far, oldest first.
    pub fn messages(&self) -> (r: &Vec<String>)
        ensures
            r@ == self.history(),
    {
        &self.history
    }

    /// Empties the prompt and returns what it held.
    pub fn take_prompt(&mut self) -> (r: String)
        requires
            old(self).wf(),
        ensures
            final(self).wf(),
            r@ == old(self).prompt(),
            final(self).prompt() == Seq::<char>::empty(),
            final(self).area() == old(self).area(),
            final(self).history() == old(self).history(),
    {
        let mut taken = String::new();
        std::mem::swap(&mut taken, &mut self.prompt);
        taken
    }

    /// Adds a message received from the server to the end of the history.
    pub fn receive(&mut self, message: String)
        requires
            old(self).wf(),
        ensures
            final(self).wf(),
            final(self).history() == old(self).history().push(message),
            final(self).prompt() == old(self).prompt(),
            final(self).area() == old(self).area(),
    {
        self.history.push(message);
    }

    /// Applies the outcome of handing the prompt to `messages_out`: the
    /// prompt is empty once the message went out, and shows the error
    /// otherwise.
    pub fn settle_send(&mut self, sent: Result<(), String>)
        requires
            old(self).wf(),
        ensures
            final(self).wf(),
            sent is Ok ==> final(self).prompt() == Seq::<char>::empty(),
            sent matches Err(e) ==> final(self).prompt() == e@,
            final(self).history() == old(self).history(),
            final(self).area() == old(self).area(),
    {
        match sent {
            Ok(()) => {
                self.prompt = String::new();
            },
            Err(e) => {
                self.prompt = e;
            },
        }
    }

    /// Moves the messages queued on `messages_in` at the time of the call
    /// into the history, in the order they came, each through `receive`.
    /// Those that arrive while it runs wait for the next call. Which
    /// messages are queued is up to the thread that fills the channel, so
    /// the contract keeps the old history as a prefix.
    pub fn update(&mut self)
        requires
            old(self).wf(),
        ensures
            final(self).wf(),
            final(self).history().len() >= old(self).history().len(),
            final(self).history().take(old(self).history().len() as int) == old(self).history(),
            final(self).prompt() == old(self).prompt(),
            final(self).area() == old(self).area(),
    {
        let n = queued(&self.messages_in);
        let mut i: usize = 0;
        while i < n
            invariant
                self.wf(),
                self.history@.len() >= old(self).history@.len(),
                self.history@.take(old(self).history@.len() as int) == old(self).history@,
                self.prompt@ == old(self).prompt@,
                self.rect == old(self).rect,
            decreases n - i,
        {
            match try_recv(&self.messages_in) {
                Some(message) => {
                    let ghost before = self.history@;
                    self.receive(message);
                    assert(self.history@.take(old(self).history@.len() as int) =~= before.take(
                        old(self).history@.len() as int,
                    ));
                },
                None => {
                    break ;
                },
            }
            i = i + 1;
        }
    }

    /// Applies a key press to the prompt. Escape and Control-C ask to
    /// terminate; Backspace removes the last character; a character key
    /// adds its character; Enter hands the prompt to `messages_out` and
    /// empties it, or shows the error in its place if the channel is gone;
    /// any other key shows that it is not handled.
    pub fn handle_keypress(&mut self, key: Key) -> (r: WindowAction)
        requires
            old(self).wf(),
        ensures
            final(self).wf(),
            final(self).area() == old(self).area(),
            final(self).history() == old(self).history(),
            key_effect(key, old(self).prompt(), final(self).prompt(), r),
    {
        match key {
            Key::Esc => WindowAction::Terminate,
            Key::Backspace => {
                pop_char(&mut self.prompt);
                WindowAction::Continue
            },
            Key::Char { c, ctrl } => {
                if c == 'c' && ctrl {
                    WindowAction::Terminate
                } else {
                    push_char(&mut self.prompt, c);
                    WindowAction::Continue
                }
            },
            Key::Enter => {
                let message = self.take_prompt();
                let sent = send(&self.messages_out, message);
                self.settle_send(sent);
                WindowAction::Continue
            },
            Key::Other(d) => {
                let mut text = "Unhandled keycode: ".to_owned();
                vstd::string::StringExecFns::append(&mut text, d.as_str());
                self.prompt = text;
                WindowAction::Continue
            },
        }
    }

    /// Lays the view out: the latest messages that fit, each cut to the
    /// width, in the rows just above the separator; the separator in the
    /// second row from the bottom; the end of the prompt in the bottom row,
    /// with the cursor right after it. An area that cannot be drawn gives
    /// an empty frame with the cursor at its corner.
    pub fn render(&self) -> (r: Frame)
        requires
            self.wf(),
        ensures
            self.lays_out(&r),
    {
        let (x, y, width, height) = self.rect.unpack();
        if height < 2 || x as u32 + width as u32 > 65535 || y as u32 + height as u32 > 65535 {
            return Frame { texts: Vec::new(), cursor_x: x, cursor_y: y };
        }
        let rows = height - 2;
        let n = self.history.len();
        let shown: u16 = if n <= rows as usize {
            n as u16
        } else {
            rows
        };
        let skip = n - shown as usize;
        let first_row = y + (rows - shown);
        let mut texts: Vec<TextAt> = Vec::new();
        let mut i: u16 = 0;
        while i < shown
            invariant
                self.wf(),
                drawable(self.area()),
                (x, y, width, height) == (self.rect.x, self.rect.y, self.rect.w, self.rect.h),
                n == self.history@.len(),
                shown == shown_count(n as int, rows as int),
                skip == n - shown,
                first_row == y + rows - shown,
                rows == height - 2,
                i <= shown,
                texts@.len() == i,
                forall|j: int|
                    0 <= j < i ==> {
                        &&& (#[trigger] texts@[j]).x == x
                        &&& texts@[j].y == first_row + j
                        &&& texts@[j].text@ == clip(self.history@[skip + j]@, width as nat)
                    },
            decreases shown - i,
        {
            let message = self.history[skip + i as usize].as_str();
            let len = message.unicode_len();
            let keep = if len <= width as usize {
                len
            } else {
                width as usize
            };
            let text = message.substring_char(0, keep).to_owned();
            assert(text@ =~= clip(self.history@[skip + i]@, width as nat));
            texts.push(TextAt { x, y: first_row + i, text });
            i = i + 1;
        }
        texts.push(TextAt { x, y: y + height - 2, text: self.horizontal_separator.clone() });
        let prompt = self.prompt.as_str();
        let len = prompt.unicode_len();
        let start = if len > width as usize {
            len - width as usize
        } else {
            0
        };
        let tail = prompt.substring_char(start, len).to_owned();
        assert(tail@ =~= prompt_tail(self.prompt@, width as nat));
        let shown_len = (len - start) as u16;
        texts.push(TextAt { x, y: y + height - 1, text: tail });
        Frame { texts, cursor_x: x + shown_len, cursor_y: y + height - 1 }
    }
}

impl Window for Chat {
    open spec fn inv(&self) -> bool {
        self.wf()
    }

    fn update(&mut self)
        ensures
            final(self).history().len() >= old(self).history().len(),
            final(self).history().take(old(self).history().len() as int) == old(self).history(),
            final(self).prompt() == old(self).prompt(),
            final(self).area() == old(self).area(),
    {
        Chat::update(self)
    }

    fn handle_keypress(&mut self, key: Key) -> (r: WindowAction)
        ensures
            key_effect(key, old(self).prompt(), final(self).prompt(), r),
            final(self).area() == old(self).area(),
            final(self).history() == old(self).history(),
    {
        Chat::handle_keypress(self, key)
    }

    /// The view takes the new size and keeps its corner.
    fn handle_resize(&mut self, width: u16, height: u16) -> (r: WindowAction)
        ensures
            r == WindowAction::Continue,
            final(self).area().x == old(self).area().x,
            final(self).area().y == old(self).area().y,
            final(self).area().w == width,
            final(self).area().h == height,
            final(self).prompt() == old(self).prompt(),
            final(self).history() == old(self).history(),
    {
        let (x, y, _w, _h) = self.rect.unpack();
        self.resize(Rectangle::new(x, y, width, height));
        WindowAction::Continue
    }

    fn render(&self) -> Frame {
        Chat::render(self)
    }
}

} // verus!