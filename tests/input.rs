use chat_bar::history::{History, FOLLOW};
use chat_bar::msg::MsgKind;
use chat_bar::ui::{Action, App, InputMode, Key, KeyCode, MenuNav, Reaction};
use tui_input::InputRequest;

fn key(code: KeyCode) -> Key {
    Key::new(code, false, None)
}

fn typed(c: char) -> Key {
    Key::new(KeyCode::Char(c), false, Some(InputRequest::InsertChar(c)))
}

fn type_text(app: &mut App, h: &mut History, s: &str) {
    for c in s.chars() {
        assert!(matches!(app.handle_key(h, typed(c)), Reaction::Stay));
    }
}

#[test]
fn typing_hello_and_enter_records_one_chat_line() {
    let mut app = App::new("alice".to_string());
    let mut h = History::new();
    assert!(matches!(app.handle_key(&mut h, key(KeyCode::Char('i'))), Reaction::Stay));
    assert_eq!(app.mode(), InputMode::Editing);
    type_text(&mut app, &mut h, "hello");
    assert_eq!(app.input_text(), "hello");
    assert_eq!(app.input_cursor(), 5);
    match app.handle_key(&mut h, key(KeyCode::Enter)) {
        Reaction::Send(m) => {
            assert_eq!(m.kind, MsgKind::Chat);
            assert_eq!(m.content, vec!["hello".to_string()]);
            assert_eq!(m.origin, "alice");
        }
        other => panic!("expected a message to send, got {other:?}"),
    }
    assert_eq!(h.len(), 1);
    assert_eq!(h.get(0).kind, MsgKind::Chat);
    assert_eq!(h.get(0).content, vec!["hello".to_string()]);
    assert_eq!(app.input_text(), "");
    assert_eq!(app.input_cursor(), 0);
}

#[test]
fn enter_on_blank_field_records_nothing() {
    let mut app = App::new("alice".to_string());
    let mut h = History::new();
    app.handle_key(&mut h, key(KeyCode::Char('e')));
    type_text(&mut app, &mut h, " \t ");
    assert!(matches!(app.handle_key(&mut h, key(KeyCode::Enter)), Reaction::Stay));
    assert_eq!(h.len(), 0);
    assert_eq!(app.input_text(), "");
}

#[test]
fn escape_from_editing_pins_cursor_to_length() {
    let mut app = App::new("alice".to_string());
    let mut h = History::new();
    app.handle_key(&mut h, key(KeyCode::Char('i')));
    assert_eq!(h.cursor(), FOLLOW);
    type_text(&mut app, &mut h, "a");
    app.handle_key(&mut h, key(KeyCode::Enter));
    type_text(&mut app, &mut h, "b");
    app.handle_key(&mut h, key(KeyCode::Enter));
    app.handle_key(&mut h, key(KeyCode::Esc));
    assert_eq!(app.mode(), InputMode::Normal);
    assert_eq!(h.cursor(), 2);
}

#[test]
fn editing_keys_go_to_the_text_field() {
    let mut app = App::new("alice".to_string());
    let mut h = History::new();
    app.handle_key(&mut h, key(KeyCode::Char('i')));
    type_text(&mut app, &mut h, "abc");
    app.handle_key(&mut h, Key::new(KeyCode::Left, false, Some(InputRequest::GoToPrevChar)));
    assert_eq!(app.input_cursor(), 2);
    app.handle_key(&mut h, Key::new(KeyCode::Other, false, Some(InputRequest::DeletePrevChar)));
    assert_eq!(app.input_text(), "ac");
    assert_eq!(app.input_cursor(), 1);
    type_text(&mut app, &mut h, "q");
    assert_eq!(app.input_text(), "aqc");
    app.handle_key(&mut h, key(KeyCode::Other));
    assert_eq!(app.input_text(), "aqc");
    assert_eq!(app.mode(), InputMode::Editing);
}

#[test]
fn colon_with_text_records_a_note_and_enters_command_mode() {
    let mut app = App::new("alice".to_string());
    let mut h = History::new();
    app.handle_key(&mut h, key(KeyCode::Char('i')));
    type_text(&mut app, &mut h, "draft");
    app.handle_key(&mut h, key(KeyCode::Esc));
    match app.handle_key(&mut h, key(KeyCode::Char(':'))) {
        Reaction::Send(m) => assert_eq!(m.content, vec![":command prompt testing...".to_string()]),
        other => panic!("expected a note, got {other:?}"),
    }
    assert_eq!(app.mode(), InputMode::Command);
    assert_eq!(h.len(), 1);
    assert_eq!(h.cursor(), 1);
    app.handle_key(&mut h, key(KeyCode::Esc));
    assert_eq!(app.mode(), InputMode::Normal);
    assert_eq!(app.input_text(), "");
}

#[test]
fn angle_without_text_only_enters_command_mode() {
    let mut app = App::new("alice".to_string());
    let mut h = History::new();
    assert!(matches!(app.handle_key(&mut h, key(KeyCode::Char('>'))), Reaction::Stay));
    assert_eq!(app.mode(), InputMode::Command);
    assert_eq!(h.len(), 0);
    assert_eq!(h.cursor(), 0);
}

#[test]
fn angle_with_text_records_its_own_note() {
    let mut app = App::new("alice".to_string());
    let mut h = History::new();
    app.handle_key(&mut h, key(KeyCode::Char('i')));
    type_text(&mut app, &mut h, "x");
    app.handle_key(&mut h, key(KeyCode::Esc));
    match app.handle_key(&mut h, key(KeyCode::Char('>'))) {
        Reaction::Send(m) => assert_eq!(m.content, vec![">command prompt testing...".to_string()]),
        other => panic!("expected a note, got {other:?}"),
    }
}

#[test]
fn quit_keys() {
    let mut app = App::new("alice".to_string());
    let mut h = History::new();
    assert!(matches!(app.handle_key(&mut h, key(KeyCode::Char('q'))), Reaction::Quit));
    app.handle_key(&mut h, key(KeyCode::Char('i')));
    assert!(matches!(app.handle_key(&mut h, typed('q')), Reaction::Stay));
    let interrupt = Key::new(KeyCode::Char('c'), true, None);
    assert!(matches!(app.handle_key(&mut h, interrupt), Reaction::Quit));
}

#[test]
fn arrows_scroll_in_normal_and_command_modes() {
    let mut app = App::new("alice".to_string());
    let mut h = History::new();
    for i in 0..5 {
        h.append(chat_bar::msg::Msg::new("bob".to_string()).set_content(format!("{i}")));
    }
    app.handle_key(&mut h, key(KeyCode::Up));
    assert_eq!(h.cursor(), 5);
    app.handle_key(&mut h, key(KeyCode::Up));
    assert_eq!(h.cursor(), 4);
    app.handle_key(&mut h, key(KeyCode::Char('>')));
    assert_eq!(h.cursor(), 5);
    app.handle_key(&mut h, key(KeyCode::Up));
    assert_eq!(h.cursor(), 4);
    app.handle_key(&mut h, key(KeyCode::Down));
    assert_eq!(h.cursor(), 5);
    assert!(matches!(app.handle_key(&mut h, key(KeyCode::Enter)), Reaction::Stay));
}

#[test]
fn menu_follows_keys_while_browsing_only() {
    let mut app = App::new("alice".to_string());
    let mut h = History::new();
    assert_eq!(app.menu_nav(&key(KeyCode::Char('h'))), Some(MenuNav::Left));
    assert_eq!(app.menu_nav(&key(KeyCode::Right)), Some(MenuNav::Right));
    assert_eq!(app.menu_nav(&key(KeyCode::Char('j'))), Some(MenuNav::Down));
    assert_eq!(app.menu_nav(&key(KeyCode::Up)), Some(MenuNav::Up));
    assert_eq!(app.menu_nav(&key(KeyCode::Esc)), Some(MenuNav::Cancel));
    assert_eq!(app.menu_nav(&key(KeyCode::Enter)), Some(MenuNav::Select));
    assert_eq!(app.menu_nav(&key(KeyCode::Char('x'))), None);
    app.handle_key(&mut h, key(KeyCode::Char('i')));
    assert_eq!(app.menu_nav(&key(KeyCode::Char('h'))), None);
}

#[test]
fn menu_actions_change_the_header() {
    let mut app = App::new("alice".to_string());
    assert!(!app.apply_action(&Action::Home));
    assert_eq!(app.header(), "Welcome to Gnostr Chat");
    assert!(!app.apply_action(&Action::FileOpenRecent("file_2.txt".to_string())));
    assert_eq!(app.header(), "content of file_2.txt");
    assert!(!app.apply_action(&Action::EditCut));
    assert_eq!(app.header(), "EditCut not implemented");
    assert!(!app.apply_action(&Action::FileNew));
    assert_eq!(app.header(), "");
    assert!(app.apply_action(&Action::Exit));
    assert_eq!(Action::AboutHelp.name(), "AboutHelp");
    assert_eq!(app.user(), "alice");
}

#[test]
fn menu_selections_apply_in_order_until_exit() {
    let mut app = App::new("alice".to_string());
    let quit = app.apply_actions(&vec![Action::Home, Action::FileOpen]);
    assert!(!quit);
    assert_eq!(app.header(), "FileOpen not implemented");
    let quit = app.apply_actions(&vec![Action::FileNew, Action::Exit, Action::Home]);
    assert!(quit);
    assert_eq!(app.header(), "");
    assert!(!app.apply_actions(&Vec::new()));
    assert_eq!(app.mode(), InputMode::Normal);
}
