use vstd::prelude::*;

use crate::msg::{chat_line, lemma_msg_views_push, line_of_kind, Msg, MsgKind, MsgView};
use crate::text::{chars_of, collect_chars_to_string, lines_of, split_lines, views};

verus! {

/// The command line: a greeting name and count, whether to start the
/// terminal interface, a configuration path, a log level and a topic.
#[derive(Clone, Debug)]
pub struct Args {
    pub name: String,
    pub count: u8,
    pub tui: bool,
    pub config: String,
    pub log_level: String,
    pub topic: String,
}

/// The logger's filter: the level asked for, or none, with the gossip
/// layer's own chatter held to errors.
pub open spec fn log_filter_of(level: Seq<char>) -> Seq<char> {
    if level.len() > 0 {
        level + ",libp2p_gossipsub::behaviour=error"@
    } else {
        "none,libp2p_gossipsub::behaviour=error"@
    }
}

/// The topic derived from a revision: its id and its summary line.
pub open spec fn commit_topic_of(id: Seq<char>, summary: Seq<char>) -> Seq<char> {
    "TOPIC> "@ + id + " "@ + summary.push(' ')
}

/// The topic to join, and the entries the history starts with: a topic given
/// on the command line is taken as it is, with nothing recorded; otherwise
/// the revision's message is recorded line by line and the derived topic is
/// announced after it.
pub open spec fn seed_of(
    given: Seq<char>,
    origin: Seq<char>,
    id: Seq<char>,
    summary: Seq<char>,
    message: Seq<char>,
) -> (Seq<char>, Seq<MsgView>) {
    if given.len() > 0 {
        (given, Seq::empty())
    } else {
        let topic = commit_topic_of(id, summary);
        (
            topic,
            lines_of(message).map_values(|l: Seq<char>| line_of_kind(origin, l, MsgKind::Git)).push(
                chat_line(origin, topic),
            ),
        )
    }
}

impl Args {
    /// The logger's filter for this command line.
    pub fn log_filter(&self) -> (r: String)
        ensures
            r@ == log_filter_of(self.log_level@),
    {
        if !self.log_level.as_str().is_empty() {
            self.log_level.clone().concat(",libp2p_gossipsub::behaviour=error")
        } else {
            String::from_str("none,libp2p_gossipsub::behaviour=error")
        }
    }
}

/// A revision's summary line with the space that ends it in a topic.
pub fn commit_summary_text(summary: &str) -> (r: String)
    ensures
        r@ == summary@.push(' '),
{
    let mut chars = chars_of(summary);
    chars.push(' ');
    collect_chars_to_string(chars.as_slice())
}

/// The topic derived from a revision's id and summary line.
pub fn commit_topic(id: &str, summary: &str) -> (r: String)
    ensures
        r@ == commit_topic_of(id@, summary@),
{
    let tail = commit_summary_text(summary);
    String::from_str("TOPIC> ").concat(id).concat(" ").concat(tail.as_str())
}

/// The topic to join and the entries the history starts with, from the
/// topic given on the command line (empty when none was), the local
/// identity, and the current revision's id, summary and message.
pub fn seed_topic(given: &str, origin: &str, id: &str, summary: &str, message: &str) -> (r: (
    String,
    Vec<Msg>,
))
    ensures
        (r.0@, r.1@.map_values(|m: Msg| m@)) == seed_of(given@, origin@, id@, summary@, message@),
{
    if !given.is_empty() {
        let none: Vec<Msg> = Vec::new();
        assert(none@.map_values(|m: Msg| m@) =~= Seq::<MsgView>::empty());
        return (String::from_str(given), none);
    }
    let topic = commit_topic(id, summary);
    let lines = split_lines(message);
    let ghost ls = lines_of(message@);
    let ghost want = ls.map_values(|l: Seq<char>| line_of_kind(origin@, l, MsgKind::Git));
    let mut out: Vec<Msg> = Vec::new();
    let mut i: usize = 0;
    while i < lines.len()
        invariant
            i <= lines.len(),
            views(lines@) == ls,
            want == ls.map_values(|l: Seq<char>| line_of_kind(origin@, l, MsgKind::Git)),
            out@.map_values(|m: Msg| m@) =~= want.subrange(0, i as int),
        decreases lines.len() - i,
    {
        let m = Msg::new(String::from_str(origin)).set_content(lines[i].clone()).set_kind(
            MsgKind::Git,
        );
        assert(m@ == want[i as int]) by {
            assert(m@.content =~= seq![ls[i as int]]);
        }
        let ghost prev = out@;
        out.push(m);
        proof {
            lemma_msg_views_push(prev, m);
        }
        i += 1;
        assert(out@.map_values(|m: Msg| m@) =~= want.subrange(0, i as int));
    }
    let announce = Msg::new(String::from_str(origin)).set_content(topic.clone());
    assert(announce@ == chat_line(origin@, topic@)) by {
        assert(announce@.content =~= seq![topic@]);
    }
    let ghost prev = out@;
    out.push(announce);
    proof {
        lemma_msg_views_push(prev, announce);
    }
    assert(out@.map_values(|m: Msg| m@) =~= want.push(chat_line(origin@, topic@)));
    (topic, out)
}

} // verus!
