use vstd::prelude::*;

use tui_input::InputRequest;

use crate::history::{
    append_spec, follow_spec, pin_spec, scroll_spec, History, HistoryView,
};
use crate::msg::{chat_line, Msg, MsgView};
use crate::text::{blank, is_blank};

verus! {

/// Declares `tui_input::InputRequest`, the change a key asks of a text
/// field; its variants (a cursor position, a character, or a motion or
/// deletion) are read as they stand.
#[verifier::external_type_specification]
pub struct ExInputRequest(tui_input::InputRequest);

/// What `tui_input::Input::handle` leaves of a text and its cursor after a request.
pub uninterp spec fn edited(text: Seq<char>, cursor: nat, req: InputRequest) -> (Seq<char>, nat);

/// Relies on `tui_input::Input::with_cursor` and `Input::handle`: the request
/// changes the text and the cursor by the text, the cursor and the request
/// alone; the cursor stays within the text; a typed character goes in at the
/// cursor, which moves past it.
#[verifier::external_body]
fn apply_edit(text: &str, cursor: usize, req: InputRequest) -> (r: (String, usize))
    requires
        cursor <= text@.len(),
    ensures
        (r.0@, r.1 as nat) == edited(text@, cursor as nat, req),
        r.1 <= r.0@.len(),
        req matches InputRequest::InsertChar(c) ==> r.0@ == text@.insert(cursor as int, c)
            && r.1 == cursor + 1,
{
    let mut input = tui_input::Input::new(text.to_string()).with_cursor(cursor);
    input.handle(req);
    (input.value().to_string(), input.cursor())
}

/// How keystrokes are read: browsing, typing a message, or a command prompt.
#[derive(Clone, Copy, Debug, PartialEq, Eq, Structural)]
pub enum InputMode {
    Normal,
    Editing,
    Command,
}

/// The keys that the modes tell apart.
#[derive(Clone, Copy, Debug, PartialEq, Eq, Structural)]
pub enum KeyCode {
    Char(char),
    Enter,
    Esc,
    Up,
    Down,
    Left,
    Right,
    Other,
}

/// One key press: its code, whether Control was held, and the change it
/// asks of a text field, if any.
#[derive(Clone, Copy, Debug)]
pub struct Key {
    pub code: KeyCode,
    pub ctrl: bool,
    pub edit: Option<InputRequest>,
}

impl Key {
    pub fn new(code: KeyCode, ctrl: bool, edit: Option<InputRequest>) -> (r: Key)
        ensures
            r == (Key { code, ctrl, edit }),
    {
        Key { code, ctrl, edit }
    }
}

/// A step of the menu overlay.
#[derive(Clone, Copy, Debug, PartialEq, Eq, Structural)]
pub enum MenuNav {
    Left,
    Right,
    Up,
    Down,
    Cancel,
    Select,
}

/// What the loop must do after a key: go on, stop, or send a message out.
#[derive(Debug)]
pub enum Reaction {
    Stay,
    Quit,
    Send(Msg),
}

/// What a reaction holds, with its message as a view.
pub enum ReactionView {
    Stay,
    Quit,
    Send(MsgView),
}

impl View for Reaction {
    type V = ReactionView;

    open spec fn view(&self) -> ReactionView {
        match self {
            Reaction::Stay => ReactionView::Stay,
            Reaction::Quit => ReactionView::Quit,
            Reaction::Send(m) => ReactionView::Send(m@),
        }
    }
}

/// The entries of the menu overlay.
#[derive(Clone, Debug)]
pub enum Action {
    Home,
    FileNew,
    FileOpen,
    FileOpenRecent(String),
    FileSaveAs,
    Exit,
    EditCopy,
    EditCut,
    EditPaste,
    AboutAuthor,
    AboutHelp,
}

/// The name of an action, as its debug form shows it.
pub open spec fn action_name(a: Action) -> Seq<char> {
    match a {
        Action::Home => "Home"@,
        Action::FileNew => "FileNew"@,
        Action::FileOpen => "FileOpen"@,
        Action::FileOpenRecent(_) => "FileOpenRecent"@,
        Action::FileSaveAs => "FileSaveAs"@,
        Action::Exit => "Exit"@,
        Action::EditCopy => "EditCopy"@,
        Action::EditCut => "EditCut"@,
        Action::EditPaste => "EditPaste"@,
        Action::AboutAuthor => "AboutAuthor"@,
        Action::AboutHelp => "AboutHelp"@,
    }
}

/// The header line after a menu action.
pub open spec fn action_header(header: Seq<char>, a: Action) -> Seq<char> {
    match a {
        Action::Home => "Welcome to Gnostr Chat"@,
        Action::Exit => header,
        Action::FileNew => Seq::empty(),
        Action::FileOpenRecent(f) => "content of "@ + f@,
        _ => action_name(a) + " not implemented"@,
    }
}

impl Action {
    /// The name of this action, as its debug form shows it.
    pub fn name(&self) -> (r: &'static str)
        ensures
            r@ == action_name(*self),
    {
        match self {
            Action::Home => "Home",
            Action::FileNew => "FileNew",
            Action::FileOpen => "FileOpen",
            Action::FileOpenRecent(_) => "FileOpenRecent",
            Action::FileSaveAs => "FileSaveAs",
            Action::Exit => "Exit",
            Action::EditCopy => "EditCopy",
            Action::EditCut => "EditCut",
            Action::EditPaste => "EditPaste",
            Action::AboutAuthor => "AboutAuthor",
            Action::AboutHelp => "AboutHelp",
        }
    }
}

/// Menu selections applied in order: each changes the header, and `Exit`
/// stops the run (the selections after it are dropped). Gives the header
/// and whether to quit.
pub open spec fn run_actions(header: Seq<char>, acts: Seq<Action>) -> (Seq<char>, bool)
    decreases acts.len(),
{
    if acts.len() == 0 {
        (header, false)
    } else if acts[0] is Exit {
        (header, true)
    } else {
        run_actions(action_header(header, acts[0]), acts.drop_first())
    }
}

/// The state of the input side of the chat.
pub struct AppView {
    pub user: Seq<char>,
    pub header: Seq<char>,
    pub text: Seq<char>,
    pub cursor: nat,
    pub mode: InputMode,
}

/// The diagnostic line for `:` typed with text in the field.
pub open spec fn colon_note() -> Seq<char> {
    ":command prompt testing..."@
}

/// The diagnostic line for `>` typed with text in the field.
pub open spec fn angle_note() -> Seq<char> {
    ">command prompt testing..."@
}

/// The interrupt combination, Control and `c`.
pub open spec fn is_interrupt(k: Key) -> bool {
    k.ctrl && k.code == KeyCode::Char('c')
}

/// Entering the command prompt from browsing: the cursor goes to the tail;
/// with text in the field a diagnostic chat line is recorded and sent.
pub open spec fn enter_prompt(a: AppView, h: HistoryView, note: Seq<char>) -> (
    AppView,
    HistoryView,
    ReactionView,
) {
    let a2 = AppView { mode: InputMode::Command, ..a };
    if !blank(a.text) {
        let m = chat_line(a.user, note);
        (a2, append_spec(pin_spec(h), m), ReactionView::Send(m))
    } else {
        (a2, pin_spec(h), ReactionView::Stay)
    }
}

/// An empty text field.
pub open spec fn cleared(a: AppView) -> AppView {
    AppView { text: Seq::empty(), cursor: 0, ..a }
}

/// The effect of one key, by mode.
pub open spec fn key_step(a: AppView, h: HistoryView, k: Key) -> (
    AppView,
    HistoryView,
    ReactionView,
) {
    if is_interrupt(k) {
        (a, h, ReactionView::Quit)
    } else {
        match a.mode {
            InputMode::Normal => match k.code {
                KeyCode::Char(':') => enter_prompt(a, h, colon_note()),
                KeyCode::Char('>') => enter_prompt(a, h, angle_note()),
                KeyCode::Char('e') | KeyCode::Char('i') => (
                    AppView { mode: InputMode::Editing, ..a },
                    follow_spec(h),
                    ReactionView::Stay,
                ),
                KeyCode::Char('q') => (a, h, ReactionView::Quit),
                KeyCode::Up => (a, scroll_spec(h, -1), ReactionView::Stay),
                KeyCode::Down => (a, scroll_spec(h, 1), ReactionView::Stay),
                _ => (a, h, ReactionView::Stay),
            },
            InputMode::Editing => match k.code {
                KeyCode::Enter => if !blank(a.text) {
                    let m = chat_line(a.user, a.text);
                    (cleared(a), append_spec(h, m), ReactionView::Send(m))
                } else {
                    (cleared(a), h, ReactionView::Stay)
                },
                KeyCode::Esc => (AppView { mode: InputMode::Normal, ..a }, pin_spec(h), ReactionView::Stay),
                _ => match k.edit {
                    Some(req) => {
                        let e = edited(a.text, a.cursor, req);
                        (AppView { text: e.0, cursor: e.1, ..a }, h, ReactionView::Stay)
                    },
                    None => (a, h, ReactionView::Stay),
                },
            },
            InputMode::Command => match k.code {
                KeyCode::Esc => (
                    cleared(AppView { mode: InputMode::Normal, ..a }),
                    pin_spec(h),
                    ReactionView::Stay,
                ),
                KeyCode::Up => (a, scroll_spec(h, -1), ReactionView::Stay),
                KeyCode::Down => (a, scroll_spec(h, 1), ReactionView::Stay),
                _ => (a, h, ReactionView::Stay),
            },
        }
    }
}

/// The menu step a key asks for; the menu follows keys while browsing only.
pub open spec fn menu_nav_spec(mode: InputMode, k: Key) -> Option<MenuNav> {
    if mode != InputMode::Normal {
        None
    } else {
        match k.code {
            KeyCode::Char('h') | KeyCode::Left => Some(MenuNav::Left),
            KeyCode::Char('l') | KeyCode::Right => Some(MenuNav::Right),
            KeyCode::Char('j') | KeyCode::Down => Some(MenuNav::Down),
            KeyCode::Char('k') | KeyCode::Up => Some(MenuNav::Up),
            KeyCode::Esc => Some(MenuNav::Cancel),
            KeyCode::Enter => Some(MenuNav::Select),
            _ => None,
        }
    }
}

/// The input side of the chat: who is typing, the header line, the text
/// field with its cursor, and the mode.
pub struct App {
    user: String,
    header_content: String,
    input: String,
    input_cursor: usize,
    input_mode: InputMode,
}

impl View for App {
    type V = AppView;

    closed spec fn view(&self) -> AppView {
        AppView {
            user: self.user@,
            header: self.header_content@,
            text: self.input@,
            cursor: self.input_cursor as nat,
            mode: self.input_mode,
        }
    }
}

impl App {
    #[verifier::type_invariant]
    spec fn inv(&self) -> bool {
        self.input_cursor <= self.input@.len()
    }

    /// The field's cursor is within its text; every input side keeps it so.
    pub open spec fn wf(&self) -> bool {
        self@.cursor <= self@.text.len()
    }

    /// A fresh input side for `user`: it starts in Normal mode (browsing),
    /// with an empty field and an empty header.
    pub fn new(user: String) -> (r: App)
        ensures
            r@ == (AppView {
                user: user@,
                header: Seq::empty(),
                text: Seq::empty(),
                cursor: 0,
                mode: InputMode::Normal,
            }),
            r.wf(),
    {
        App {
            user,
            header_content: String::new(),
            input: String::new(),
            input_cursor: 0,
            input_mode: InputMode::Normal,
        }
    }

    pub fn mode(&self) -> (r: InputMode)
        ensures
            r == self@.mode,
    {
        self.input_mode
    }

    pub fn input_text(&self) -> (r: &str)
        ensures
            r@ == self@.text,
    {
        self.input.as_str()
    }

    pub fn input_cursor(&self) -> (r: usize)
        ensures
            r == self@.cursor,
    {
        self.input_cursor
    }

    pub fn header(&self) -> (r: &str)
        ensures
            r@ == self@.header,
    {
        self.header_content.as_str()
    }

    pub fn user(&self) -> (r: &str)
        ensures
            r@ == self@.user,
    {
        self.user.as_str()
    }

    /// The menu step that `key` asks for in the current mode.
    pub fn menu_nav(&self, key: &Key) -> (r: Option<MenuNav>)
        ensures
            r == menu_nav_spec(self@.mode, *key),
    {
        if self.input_mode != InputMode::Normal {
            return None;
        }
        match key.code {
            KeyCode::Char('h') | KeyCode::Left => Some(MenuNav::Left),
            KeyCode::Char('l') | KeyCode::Right => Some(MenuNav::Right),
            KeyCode::Char('j') | KeyCode::Down => Some(MenuNav::Down),
            KeyCode::Char('k') | KeyCode::Up => Some(MenuNav::Up),
            KeyCode::Esc => Some(MenuNav::Cancel),
            KeyCode::Enter => Some(MenuNav::Select),
            _ => None,
        }
    }

    /// Applies a menu selection to the header line; true when it asks to quit.
    pub fn apply_action(&mut self, action: &Action) -> (quit: bool)
        ensures
            quit == (*action is Exit),
            final(self)@ == (AppView { header: action_header(old(self)@.header, *action), ..old(self)@ }),
            final(self).wf(),
    {
        proof {
            use_type_invariant(&*self);
        }
        match action {
            Action::Home => {
                self.header_content = String::from_str("Welcome to Gnostr Chat");
                false
            },
            Action::Exit => true,
            Action::FileNew => {
                self.header_content = String::new();
                false
            },
            Action::FileOpenRecent(file) => {
                self.header_content = String::from_str("content of ").concat(file.as_str());
                false
            },
            _ => {
                self.header_content = String::from_str(action.name()).concat(" not implemented");
                false
            },
        }
    }

    /// Applies the menu selections of one tick in order, up to an `Exit`;
    /// true when one asked to quit.
    pub fn apply_actions(&mut self, actions: &Vec<Action>) -> (quit: bool)
        ensures
            (final(self)@.header, quit) == run_actions(old(self)@.header, actions@),
            final(self)@ == (AppView { header: final(self)@.header, ..old(self)@ }),
            final(self).wf(),
    {
        proof {
            use_type_invariant(&*self);
        }
        assert(actions@.subrange(0, actions.len() as int) =~= actions@);
        let mut i: usize = 0;
        while i < actions.len()
            invariant
                i <= actions.len(),
                run_actions(self@.header, actions@.subrange(i as int, actions.len() as int))
                    == run_actions(old(self)@.header, actions@),
                self@ == (AppView { header: self@.header, ..old(self)@ }),
                self.wf(),
            decreases actions.len() - i,
        {
            let ghost rest = actions@.subrange(i as int, actions.len() as int);
            assert(rest.drop_first() =~= actions@.subrange(i + 1, actions.len() as int));
            if self.apply_action(&actions[i]) {
                return true;
            }
            i += 1;
        }
        false
    }

    fn clear_input(&mut self)
        ensures
            final(self)@ == cleared(old(self)@),
            final(self).wf(),
    {
        self.input_cursor = 0;
        self.input = String::new();
    }

    fn enter_prompt(&mut self, history: &mut History, note: &str) -> (r: Reaction)
        ensures
            (final(self)@, final(history)@, r@) == enter_prompt(old(self)@, old(history)@, note@),
            final(self).wf(),
    {
        proof {
            use_type_invariant(&*self);
        }
        history.pin_to_tail();
        self.input_mode = InputMode::Command;
        if !is_blank(self.input.as_str()) {
            let m = Msg::new(self.user.clone()).set_content(String::from_str(note));
            assert(m@ == chat_line(self@.user, note@)) by {
                assert(m@.content =~= seq![note@]);
            }
            history.append(m.clone());
            Reaction::Send(m)
        } else {
            Reaction::Stay
        }
    }

    /// Interprets one key press in the current mode, changing the field, the
    /// mode and `history` as the mode's table says, and tells the loop what
    /// to do next.
    pub fn handle_key(&mut self, history: &mut History, key: Key) -> (r: Reaction)
        ensures
            (final(self)@, final(history)@, r@) == key_step(old(self)@, old(history)@, key),
            final(self).wf(),
    {
        proof {
            use_type_invariant(&*self);
        }
        if key.ctrl && key.code == KeyCode::Char('c') {
            return Reaction::Quit;
        }
        match self.input_mode {
            InputMode::Normal => match key.code {
                KeyCode::Char(':') => self.enter_prompt(history, ":command prompt testing..."),
                KeyCode::Char('>') => self.enter_prompt(history, ">command prompt testing..."),
                KeyCode::Char('e') | KeyCode::Char('i') => {
                    self.input_mode = InputMode::Editing;
                    history.follow_latest();
                    Reaction::Stay
                },
                KeyCode::Char('q') => Reaction::Quit,
                KeyCode::Up => {
                    history.scroll_up();
                    Reaction::Stay
                },
                KeyCode::Down => {
                    history.scroll_down();
                    Reaction::Stay
                },
                _ => Reaction::Stay,
            },
            InputMode::Editing => match key.code {
                KeyCode::Enter => {
                    if !is_blank(self.input.as_str()) {
                        let m = Msg::new(self.user.clone()).set_content(self.input.clone());
                        assert(m@ == chat_line(self@.user, self@.text)) by {
                            assert(m@.content =~= seq![self@.text]);
                        }
                        history.append(m.clone());
                        self.clear_input();
                        Reaction::Send(m)
                    } else {
                        self.clear_input();
                        Reaction::Stay
                    }
                },
                KeyCode::Esc => {
                    self.input_mode = InputMode::Normal;
                    history.pin_to_tail();
                    Reaction::Stay
                },
                _ => {
                    if let Some(req) = key.edit {
                        let (text, cursor) = apply_edit(self.input.as_str(), self.input_cursor, req);
                        self.input_cursor = 0;
                        self.input = text;
                        self.input_cursor = cursor;
                    }
                    Reaction::Stay
                },
            },
            InputMode::Command => match key.code {
                KeyCode::Esc => {
                    self.input_mode = InputMode::Normal;
                    history.pin_to_tail();
                    self.clear_input();
                    Reaction::Stay
                },
                KeyCode::Up => {
                    history.scroll_up();
                    Reaction::Stay
                },
                KeyCode::Down => {
                    history.scroll_down();
                    Reaction::Stay
                },
                _ => Reaction::Stay,
            },
        }
    }
}

/// From browsing, `i` starts typing; from typing, Esc goes back to browsing
/// with the cursor at the current length; Enter with a non-blank field
/// records exactly one chat line, the field's text, and empties the field;
/// Enter with a blank field records nothing and empties the field.
pub proof fn lemma_typing_modes(a: AppView, h: HistoryView, k: Key)
    ensures
        a.mode == InputMode::Normal && k.code == KeyCode::Char('i') ==> key_step(a, h, k).0.mode
            == InputMode::Editing,
        a.mode == InputMode::Editing && k.code == KeyCode::Esc ==> {
            &&& key_step(a, h, k).0.mode == InputMode::Normal
            &&& key_step(a, h, k).1.cursor == h.entries.len()
            &&& key_step(a, h, k).1.entries == h.entries
        },
        a.mode == InputMode::Editing && k.code == KeyCode::Enter && !blank(a.text) ==> {
            &&& key_step(a, h, k).1.entries == h.entries.push(chat_line(a.user, a.text))
            &&& key_step(a, h, k).1.entries.len() == h.entries.len() + 1
            &&& key_step(a, h, k).0.text.len() == 0
        },
        a.mode == InputMode::Editing && k.code == KeyCode::Enter && blank(a.text) ==> {
            &&& key_step(a, h, k).1.entries == h.entries
            &&& key_step(a, h, k).0.text.len() == 0
        },
{
}

} // verus!
