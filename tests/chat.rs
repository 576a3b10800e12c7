use tchat::chat::Chat;
use tchat::screen::Screen;
use tchat::util::Rectangle;
use tchat::window::{Key, Window, WindowAction};

fn chat(w: u16, h: u16) -> (Chat, crossbeam_channel::Sender<String>, crossbeam_channel::Receiver<String>) {
    let (in_tx, in_rx) = crossbeam_channel::unbounded::<String>();
    let (out_tx, out_rx) = crossbeam_channel::unbounded::<String>();
    (Chat::new(Rectangle::new(0, 0, w, h), in_rx, out_tx), in_tx, out_rx)
}

fn typed(c: char) -> Key {
    Key::Char { c, ctrl: false }
}

#[test]
fn typing_and_backspace_edit_prompt() {
    let (mut c, _in, _out) = chat(10, 5);
    assert_eq!(c.handle_keypress(typed('h')), WindowAction::Continue);
    c.handle_keypress(typed('i'));
    c.handle_keypress(typed('!'));
    assert_eq!(c.current_prompt(), "hi!");
    assert_eq!(c.handle_keypress(Key::Backspace), WindowAction::Continue);
    assert_eq!(c.current_prompt(), "hi");
}

#[test]
fn backspace_on_empty_prompt_keeps_it_empty() {
    let (mut c, _in, _out) = chat(10, 5);
    c.handle_keypress(Key::Backspace);
    assert_eq!(c.current_prompt(), "");
}

#[test]
fn escape_and_ctrl_c_terminate() {
    let (mut c, _in, _out) = chat(10, 5);
    c.handle_keypress(typed('x'));
    assert_eq!(c.handle_keypress(Key::Esc), WindowAction::Terminate);
    assert_eq!(c.handle_keypress(Key::Char { c: 'c', ctrl: true }), WindowAction::Terminate);
    assert_eq!(c.current_prompt(), "x");
    // control with another letter just types it
    assert_eq!(c.handle_keypress(Key::Char { c: 'd', ctrl: true }), WindowAction::Continue);
    assert_eq!(c.current_prompt(), "xd");
}

#[test]
fn enter_sends_prompt_and_clears_it() {
    let (mut c, _in, out) = chat(10, 5);
    c.handle_keypress(typed('o'));
    c.handle_keypress(typed('k'));
    assert_eq!(c.handle_keypress(Key::Enter), WindowAction::Continue);
    assert_eq!(c.current_prompt(), "");
    assert_eq!(out.try_recv(), Ok("ok".to_string()));
    assert!(c.messages().is_empty());
}

#[test]
fn enter_on_closed_channel_shows_error() {
    let (mut c, _in, out) = chat(10, 5);
    drop(out);
    c.handle_keypress(typed('a'));
    c.handle_keypress(Key::Enter);
    assert_eq!(c.current_prompt(), "sending on a disconnected channel");
}

#[test]
fn other_key_is_reported_in_prompt() {
    let (mut c, _in, _out) = chat(10, 5);
    c.handle_keypress(Key::Other("Tab".to_string()));
    assert_eq!(c.current_prompt(), "Unhandled keycode: Tab");
}

#[test]
fn update_moves_queued_messages_into_history() {
    let (mut c, tx, _out) = chat(10, 5);
    tx.send("a".to_string()).unwrap();
    tx.send("b".to_string()).unwrap();
    c.update();
    assert_eq!(c.messages(), &vec!["a".to_string(), "b".to_string()]);
    tx.send("c".to_string()).unwrap();
    Window::update(&mut c);
    assert_eq!(c.messages().len(), 3);
    assert_eq!(c.messages()[2], "c");
}

#[test]
fn render_lays_out_history_separator_and_prompt() {
    let (mut c, tx, _out) = chat(4, 4);
    for m in ["one", "two", "three"] {
        tx.send(m.to_string()).unwrap();
    }
    c.update();
    for ch in "abcdef".chars() {
        c.handle_keypress(typed(ch));
    }
    let f = c.render();
    // two rows for history: the latest two messages, cut to four columns
    let got: Vec<(u16, u16, String)> = f.texts.iter().map(|t| (t.x, t.y, t.text.clone())).collect();
    assert_eq!(
        got,
        vec![
            (0, 0, "two".to_string()),
            (0, 1, "thre".to_string()),
            (0, 2, "----".to_string()),
            (0, 3, "cdef".to_string()),
        ]
    );
    assert_eq!((f.cursor_x, f.cursor_y), (4, 3));
}

#[test]
fn render_puts_few_messages_just_above_separator() {
    let (mut c, tx, _out) = chat(10, 6);
    tx.send("hi".to_string()).unwrap();
    c.update();
    let f = c.render();
    assert_eq!(f.texts.len(), 3);
    assert_eq!((f.texts[0].y, f.texts[0].text.as_str()), (3, "hi"));
    assert_eq!((f.texts[1].y, f.texts[1].text.as_str()), (4, "----------"));
    assert_eq!((f.texts[2].y, f.texts[2].text.as_str()), (5, ""));
    assert_eq!((f.cursor_x, f.cursor_y), (0, 5));
}

#[test]
fn render_of_too_small_area_is_empty() {
    let (c, _in, _out) = chat(10, 1);
    let f = c.render();
    assert!(f.texts.is_empty());
    assert_eq!((f.cursor_x, f.cursor_y), (0, 0));
}

#[test]
fn resize_changes_separator_width() {
    let (mut c, _in, _out) = chat(3, 4);
    c.resize(Rectangle::new(0, 0, 5, 4));
    assert_eq!(c.render().texts[0].text, "-----");
    assert_eq!(c.handle_resize(2, 3), WindowAction::Continue);
    let f = c.render();
    assert_eq!(f.texts[0].text, "--");
    assert_eq!(f.texts[0].y, 1);
}

#[test]
fn set_prompt_replaces_prompt() {
    let (mut c, _in, _out) = chat(10, 5);
    c.handle_keypress(typed('q'));
    c.set_prompt("new".to_string());
    assert_eq!(c.current_prompt(), "new");
}

#[test]
fn screen_resize_resizes_chat() {
    let (_in_tx, in_rx) = crossbeam_channel::unbounded::<String>();
    let (out_tx, _out_rx) = crossbeam_channel::unbounded::<String>();
    let mut s = Screen::new(8, 4, in_rx, out_tx);
    assert_eq!(s.render().texts[0].text, "--------");
    assert_eq!(s.handle_resize(3, 5), WindowAction::Continue);
    let f = s.render();
    assert_eq!(f.texts[0].text, "---");
    assert_eq!(f.texts[0].y, 3);
    s.set_prompt("p".to_string());
    assert_eq!(s.chat_view().current_prompt(), "p");
    assert_eq!(s.handle_keypress(Key::Esc), WindowAction::Terminate);
}

#[test]
fn rectangle_unpack_returns_fields() {
    let r = Rectangle::new(1u16, 2, 3, 4);
    assert_eq!(r.unpack(), (1, 2, 3, 4));
}

#[test]
fn client_keeps_remote_address() {
    let c = tchat::Client::new("127.0.0.1:8080".to_string());
    assert_eq!(c.remote_address(), "127.0.0.1:8080");
    let _s = tchat::Server::new();
}

#[test]
fn receive_appends_in_order() {
    let (mut c, _in, _out) = chat(10, 5);
    c.receive("first".to_string());
    c.receive("second".to_string());
    assert_eq!(c.messages(), &vec!["first".to_string(), "second".to_string()]);
    assert_eq!(c.current_prompt(), "");
}

#[test]
fn settle_send_empties_prompt_or_shows_error() {
    let (mut c, _in, _out) = chat(10, 5);
    c.set_prompt("left".to_string());
    c.settle_send(Ok(()));
    assert_eq!(c.current_prompt(), "");
    c.settle_send(Err("gone".to_string()));
    assert_eq!(c.current_prompt(), "gone");
    assert!(c.messages().is_empty());
}

#[test]
fn screen_receive_and_update_fill_history() {
    let (in_tx, in_rx) = crossbeam_channel::unbounded::<String>();
    let (out_tx, _out_rx) = crossbeam_channel::unbounded::<String>();
    let mut s = Screen::new(8, 4, in_rx, out_tx);
    s.receive("a".to_string());
    in_tx.send("b".to_string()).unwrap();
    in_tx.send("c".to_string()).unwrap();
    s.update();
    assert_eq!(
        s.chat_view().messages(),
        &vec!["a".to_string(), "b".to_string(), "c".to_string()]
    );
}
