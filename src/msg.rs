use vstd::prelude::*;

use crate::text::{chunk_chars, chunks_of, concat_all, lines_chars, lines_of, views};

verus! {

/// The closed set of message kinds; a kind only governs how a message is shown.
#[derive(Clone, Copy, Debug, PartialEq, Eq, Structural)]
pub enum MsgKind {
    Chat,
    Join,
    Leave,
    System,
    Raw,
    Command,
    Git,
}

/// One chat record: who sent it, its lines, and how it is shown.
#[derive(Debug)]
pub struct Msg {
    pub origin: String,
    pub content: Vec<String>,
    pub kind: MsgKind,
}

/// What a message holds, as plain sequences.
pub struct MsgView {
    pub origin: Seq<char>,
    pub content: Seq<Seq<char>>,
    pub kind: MsgKind,
}

impl View for Msg {
    type V = MsgView;

    open spec fn view(&self) -> MsgView {
        MsgView { origin: self.origin@, content: views(self.content@), kind: self.kind }
    }
}

/// The first line of a message, or the empty text for a message without one.
pub open spec fn head(m: MsgView) -> Seq<char> {
    if m.content.len() > 0 {
        m.content[0]
    } else {
        Seq::empty()
    }
}

/// The one-line text of a message, by kind.
pub open spec fn display_of(m: MsgView) -> Seq<char> {
    match m.kind {
        MsgKind::Join => m.origin + " join"@,
        MsgKind::Leave => m.origin + " left"@,
        MsgKind::Chat => m.origin + ": "@ + head(m),
        MsgKind::System => "[System] "@ + head(m),
        MsgKind::Raw => head(m),
        MsgKind::Command => "[Command] "@ + m.origin + ":"@ + head(m),
        MsgKind::Git => "[Git] "@ + m.origin + ":"@ + head(m),
    }
}

/// A text cut into lines, each line into runs of `w` characters.
pub open spec fn wrapped(text: Seq<char>, w: nat) -> Seq<Seq<char>> {
    concat_all(lines_of(text).map_values(|l: Seq<char>| chunks_of(l, w)))
}

/// The message a sender starts from: one empty line, of kind chat.
pub open spec fn blank_from(from: Seq<char>) -> MsgView {
    MsgView { origin: from, content: seq![Seq::empty()], kind: MsgKind::Chat }
}

/// A chat message of a single line.
pub open spec fn chat_line(from: Seq<char>, line: Seq<char>) -> MsgView {
    MsgView { origin: from, content: seq![line], kind: MsgKind::Chat }
}

/// A message of the given kind holding a single line.
pub open spec fn line_of_kind(from: Seq<char>, line: Seq<char>, kind: MsgKind) -> MsgView {
    MsgView { origin: from, content: seq![line], kind }
}

/// The wire tag of a kind.
pub open spec fn tag_of(k: MsgKind) -> Seq<char> {
    match k {
        MsgKind::Chat => "Chat"@,
        MsgKind::Join => "Join"@,
        MsgKind::Leave => "Leave"@,
        MsgKind::System => "System"@,
        MsgKind::Raw => "Raw"@,
        MsgKind::Command => "Command"@,
        MsgKind::Git => "Git"@,
    }
}

/// The kind a wire tag names, if any.
pub open spec fn kind_of_tag(t: Seq<char>) -> Option<MsgKind> {
    if t == "Chat"@ {
        Some(MsgKind::Chat)
    } else if t == "Join"@ {
        Some(MsgKind::Join)
    } else if t == "Leave"@ {
        Some(MsgKind::Leave)
    } else if t == "System"@ {
        Some(MsgKind::System)
    } else if t == "Raw"@ {
        Some(MsgKind::Raw)
    } else if t == "Command"@ {
        Some(MsgKind::Command)
    } else if t == "Git"@ {
        Some(MsgKind::Git)
    } else {
        None
    }
}

/// Why a record read off the wire is refused.
#[derive(Clone, Copy, Debug, PartialEq, Eq, Structural)]
pub enum WireError {
    /// The kind tag names no kind.
    UnknownKind,
    /// The record has no line.
    NoContent,
}

/// The message a wire record stands for: its tag must name a kind, and it
/// must hold at least one line.
pub open spec fn from_wire_spec(origin: Seq<char>, content: Seq<Seq<char>>, tag: Seq<char>) -> Result<
    MsgView,
    WireError,
> {
    match kind_of_tag(tag) {
        None => Err(WireError::UnknownKind),
        Some(kind) => if content.len() == 0 {
            Err(WireError::NoContent)
        } else {
            Ok(MsgView { origin, content, kind })
        },
    }
}

pub open spec fn wire_result_view(r: Result<Msg, WireError>) -> Result<MsgView, WireError> {
    match r {
        Ok(m) => Ok(m@),
        Err(e) => Err(e),
    }
}

/// Every kind's tag names that kind again.
pub proof fn lemma_tag_round_trip(k: MsgKind)
    ensures
        kind_of_tag(tag_of(k)) == Some(k),
{
    reveal_strlit("Chat");
    reveal_strlit("Join");
    reveal_strlit("Leave");
    reveal_strlit("System");
    reveal_strlit("Raw");
    reveal_strlit("Command");
    reveal_strlit("Git");
    assert("Join"@ != "Chat"@) by {
        assert("Join"@[0] != "Chat"@[0]);
    }
    assert("Leave"@ != "Chat"@) by {
        assert("Leave"@[0] != "Chat"@[0]);
    }
    assert("Leave"@ != "Join"@) by {
        assert("Leave"@[0] != "Join"@[0]);
    }
    assert("System"@ != "Chat"@) by {
        assert("System"@[0] != "Chat"@[0]);
    }
    assert("System"@ != "Join"@) by {
        assert("System"@[0] != "Join"@[0]);
    }
    assert("System"@ != "Leave"@) by {
        assert("System"@[0] != "Leave"@[0]);
    }
    assert("Raw"@ != "Chat"@) by {
        assert("Raw"@[0] != "Chat"@[0]);
    }
    assert("Raw"@ != "Join"@) by {
        assert("Raw"@[0] != "Join"@[0]);
    }
    assert("Raw"@ != "Leave"@) by {
        assert("Raw"@[0] != "Leave"@[0]);
    }
    assert("Raw"@ != "System"@) by {
        assert("Raw"@[0] != "System"@[0]);
    }
    assert("Command"@ != "Chat"@) by {
        assert("Command"@[1] != "Chat"@[1]);
    }
    assert("Command"@ != "Join"@) by {
        assert("Command"@[0] != "Join"@[0]);
    }
    assert("Command"@ != "Leave"@) by {
        assert("Command"@[0] != "Leave"@[0]);
    }
    assert("Command"@ != "System"@) by {
        assert("Command"@[0] != "System"@[0]);
    }
    assert("Command"@ != "Raw"@) by {
        assert("Command"@[0] != "Raw"@[0]);
    }
    assert("Git"@ != "Chat"@) by {
        assert("Git"@[0] != "Chat"@[0]);
    }
    assert("Git"@ != "Join"@) by {
        assert("Git"@[0] != "Join"@[0]);
    }
    assert("Git"@ != "Leave"@) by {
        assert("Git"@[0] != "Leave"@[0]);
    }
    assert("Git"@ != "System"@) by {
        assert("Git"@[0] != "System"@[0]);
    }
    assert("Git"@ != "Raw"@) by {
        assert("Git"@[0] != "Raw"@[0]);
    }
    assert("Git"@ != "Command"@) by {
        assert("Git"@[0] != "Command"@[0]);
    }
}

/// A well-formed message taken apart into its wire fields (origin, lines,
/// kind tag) and read back in is the same message.
pub proof fn lemma_wire_round_trip(m: MsgView)
    requires
        m.content.len() >= 1,
    ensures
        from_wire_spec(m.origin, m.content, tag_of(m.kind)) == Ok::<MsgView, WireError>(m),
{
    lemma_tag_round_trip(m.kind);
}

/// Views distribute over a push.
pub proof fn lemma_msg_views_push(v: Seq<Msg>, m: Msg)
    ensures
        v.push(m).map_values(|x: Msg| x@) == v.map_values(|x: Msg| x@).push(m@),
{
    assert(v.push(m).map_values(|x: Msg| x@) =~= v.map_values(|x: Msg| x@).push(m@));
}

impl Clone for Msg {
    fn clone(&self) -> (r: Msg)
        ensures
            r@ == self@,
    {
        let mut content: Vec<String> = Vec::new();
        let mut i: usize = 0;
        while i < self.content.len()
            invariant
                i <= self.content.len(),
                content@ =~= self.content@.subrange(0, i as int),
            decreases self.content.len() - i,
        {
            content.push(self.content[i].clone());
            i += 1;
            assert(content@ =~= self.content@.subrange(0, i as int));
        }
        assert(content@ =~= self.content@);
        Msg { origin: self.origin.clone(), content, kind: self.kind }
    }
}

impl MsgKind {
    /// The wire tag of this kind.
    pub fn tag(&self) -> (r: &'static str)
        ensures
            r@ == tag_of(*self),
    {
        match self {
            MsgKind::Chat => "Chat",
            MsgKind::Join => "Join",
            MsgKind::Leave => "Leave",
            MsgKind::System => "System",
            MsgKind::Raw => "Raw",
            MsgKind::Command => "Command",
            MsgKind::Git => "Git",
        }
    }

    /// The kind a wire tag names, if any.
    pub fn from_tag(t: &str) -> (r: Option<MsgKind>)
        ensures
            r == kind_of_tag(t@),
    {
        let s = String::from_str(t);
        if s == String::from_str("Chat") {
            Some(MsgKind::Chat)
        } else if s == String::from_str("Join") {
            Some(MsgKind::Join)
        } else if s == String::from_str("Leave") {
            Some(MsgKind::Leave)
        } else if s == String::from_str("System") {
            Some(MsgKind::System)
        } else if s == String::from_str("Raw") {
            Some(MsgKind::Raw)
        } else if s == String::from_str("Command") {
            Some(MsgKind::Command)
        } else if s == String::from_str("Git") {
            Some(MsgKind::Git)
        } else {
            None
        }
    }
}

impl Msg {
    /// The message that a wire record (origin, lines, kind tag) stands for,
    /// or why the record is refused.
    pub fn from_wire(origin: String, content: Vec<String>, kind: &str) -> (r: Result<Msg, WireError>)
        ensures
            wire_result_view(r) == from_wire_spec(origin@, views(content@), kind@),
    {
        match MsgKind::from_tag(kind) {
            None => Err(WireError::UnknownKind),
            Some(k) => {
                if content.len() == 0 {
                    Err(WireError::NoContent)
                } else {
                    Ok(Msg { origin, content, kind: k })
                }
            },
        }
    }

    /// A message is well formed when it holds at least one line.
    pub open spec fn wf(&self) -> bool {
        self.content.len() >= 1
    }

    /// The message a sender starts from: one empty line, of kind chat.
    pub fn new(from: String) -> (r: Msg)
        ensures
            r@ == blank_from(from@),
            r.wf(),
    {
        let mut content: Vec<String> = Vec::new();
        content.push(String::new());
        let r = Msg { origin: from, content, kind: MsgKind::Chat };
        assert(r@.content =~= seq![Seq::<char>::empty()]);
        r
    }

    /// The same message with another kind.
    pub fn set_kind(self, kind: MsgKind) -> (r: Msg)
        ensures
            r@ == (MsgView { kind, ..self@ }),
            self.wf() ==> r.wf(),
    {
        let mut m = self;
        m.kind = kind;
        m
    }

    /// The same message with its first line replaced by `content` (or given
    /// `content` as its only line, if it had none).
    pub fn set_content(self, content: String) -> (r: Msg)
        ensures
            r@ == (MsgView {
                content: if self@.content.len() == 0 {
                    seq![content@]
                } else {
                    self@.content.update(0, content@)
                },
                ..self@
            }),
            r.wf(),
    {
        let mut m = self;
        if m.content.len() == 0 {
            m.content.push(content);
            assert(m@.content =~= seq![content@]);
        } else {
            let ghost before = m.content@;
            m.content.set(0, content);
            assert(m@.content =~= views(before).update(0, content@));
        }
        m
    }

    /// A chat message of one line, sent by this host and marked as such.
    pub fn new_self_chat(host: &str, content: String) -> (r: Msg)
        ensures
            r@ == chat_line(host@ + " (You)"@, content@),
            r.wf(),
    {
        let from = String::from_str(host).concat(" (You)");
        let mut lines: Vec<String> = Vec::new();
        lines.push(content);
        let r = Msg { origin: from, content: lines, kind: MsgKind::Chat };
        assert(r@.content =~= seq![content@]);
        r
    }

    /// Cuts `text` into its lines and each line into runs of at most
    /// `max_width` characters; an empty line gives no run.
    pub fn wrap_text(text: String, max_width: usize) -> (r: Vec<String>)
        requires
            max_width > 0,
        ensures
            views(r@) == wrapped(text@, max_width as nat),
    {
        let lines = lines_chars(text.as_str());
        let ghost ls = lines_of(text@);
        let ghost parts = ls.map_values(|l: Seq<char>| chunks_of(l, max_width as nat));
        let mut out: Vec<String> = Vec::new();
        let mut i: usize = 0;
        while i < lines.len()
            invariant
                i <= lines.len(),
                max_width > 0,
                lines@.len() == ls.len(),
                forall|j: int| 0 <= j < ls.len() ==> (#[trigger] lines@[j])@ == ls[j],
                parts == ls.map_values(|l: Seq<char>| chunks_of(l, max_width as nat)),
                views(out@) == concat_all(parts.subrange(0, i as int)),
            decreases lines.len() - i,
        {
            let mut pieces = chunk_chars(&lines[i], max_width);
            let ghost prev = out@;
            out.append(&mut pieces);
            assert(views(out@) =~= views(prev) + parts[i as int]);
            assert(parts.subrange(0, i + 1).drop_last() =~= parts.subrange(0, i as int));
            i += 1;
        }
        assert(parts.subrange(0, i as int) =~= parts);
        out
    }

    /// The first line, or the empty text when there is none.
    pub fn first_line(&self) -> (r: String)
        ensures
            r@ == head(self@),
    {
        if self.content.len() > 0 {
            self.content[0].clone()
        } else {
            String::new()
        }
    }

    /// The one-line text of this message, by kind.
    pub fn display_text(&self) -> (r: String)
        ensures
            r@ == display_of(self@),
    {
        let line = self.first_line();
        match self.kind {
            MsgKind::Join => self.origin.clone().concat(" join"),
            MsgKind::Leave => self.origin.clone().concat(" left"),
            MsgKind::Chat => self.origin.clone().concat(": ").concat(line.as_str()),
            MsgKind::System => String::from_str("[System] ").concat(line.as_str()),
            MsgKind::Raw => line,
            MsgKind::Command => String::from_str("[Command] ").concat(self.origin.as_str()).concat(
                ":",
            ).concat(line.as_str()),
            MsgKind::Git => String::from_str("[Git] ").concat(self.origin.as_str()).concat(
                ":",
            ).concat(line.as_str()),
        }
    }
}

} // verus!
