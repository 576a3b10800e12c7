use vstd::prelude::*;
use crossbeam_channel::{Receiver, Sender};
use crate::chat::{Chat, key_effect};
use crate::util::Rectangle;
use crate::window::{Frame, Key, Window, WindowAction};

verus! {

/// The whole terminal: a chat view that fills it.
pub struct Screen {
    width: u16,
    height: u16,
    chat: Chat,
}

impl Screen {
    pub closed spec fn width(&self) -> u16 {
        self.width
    }

    pub closed spec fn height(&self) -> u16 {
        self.height
    }

    /// The chat view that fills the screen.
    pub closed spec fn chat(&self) -> Chat {
        self.chat
    }

    /// The chat view is well formed and covers the screen exactly.
    pub open spec fn wf(&self) -> bool {
        &&& self.chat().wf()
        &&& self.chat().area().x == 0
        &&& self.chat().area().y == 0
        &&& self.chat().area().w == self.width()
        &&& self.chat().area().h == self.height()
    }

    pub fn new(width: u16, height: u16, messages_in: Receiver<String>, messages_out: Sender<String>) -> (r: Self)
        ensures
            r.wf(),
            r.width() == width,
            r.height() == height,
            r.chat().prompt() == Seq::<char>::empty(),
            r.chat().history() == Seq::<String>::empty(),
    {
        let chat = Chat::new(Rectangle::new(0, 0, width, height), messages_in, messages_out);
        Screen { width, height, chat }
    }

    /// The chat view that fills the screen.
    pub fn chat_view(&self) -> (r: &Chat)
        ensures
            *r == self.chat(),
    {
        &self.chat
    }

    /// Adds a message received from the server to the chat's history.
    pub fn receive(&mut self, message: String)
        requires
            old(self).wf(),
        ensures
            final(self).wf(),
            final(self).chat().history() == old(self).chat().history().push(message),
            final(self).chat().prompt() == old(self).chat().prompt(),
            final(self).width() == old(self).width(),
            final(self).height() == old(self).height(),
    {
        self.chat.receive(message);
    }

    pub fn set_prompt(&mut self, prompt: String)
        requires
            old(self).wf(),
        ensures
            final(self).wf(),
            final(self).chat().prompt() == prompt@,
            final(self).chat().history() == old(self).chat().history(),
            final(self).width() == old(self).width(),
            final(self).height() == old(self).height(),
    {
        self.chat.set_prompt(prompt);
    }
}

impl Window for Screen {
    open spec fn inv(&self) -> bool {
        self.wf()
    }

    fn update(&mut self)
        ensures
            final(self).chat().history().len() >= old(self).chat().history().len(),
            final(self).chat().history().take(old(self).chat().history().len() as int)
                == old(self).chat().history(),
            final(self).chat().prompt() == old(self).chat().prompt(),
            final(self).width() == old(self).width(),
            final(self).height() == old(self).height(),
    {
        self.chat.update();
    }

    fn handle_keypress(&mut self, key: Key) -> (r: WindowAction)
        ensures
            key_effect(key, old(self).chat().prompt(), final(self).chat().prompt(), r),
            final(self).chat().history() == old(self).chat().history(),
            final(self).width() == old(self).width(),
            final(self).height() == old(self).height(),
    {
        self.chat.handle_keypress(key)
    }

    /// The screen takes the new size, and the chat view with it.
    fn handle_resize(&mut self, width: u16, height: u16) -> (r: WindowAction)
        ensures
            r == WindowAction::Continue,
            final(self).width() == width,
            final(self).height() == height,
            final(self).chat().prompt() == old(self).chat().prompt(),
            final(self).chat().history() == old(self).chat().history(),
    {
        self.width = width;
        self.height = height;
        self.chat.resize(Rectangle::new(0, 0, width, height));
        WindowAction::Continue
    }

    fn render(&self) -> (r: Frame)
        ensures
            self.chat().lays_out(&r),
    {
        self.chat.render()
    }
}

} // verus!
