use vstd::prelude::*;

use vstd::utf8::encode_utf8;

use crate::msg::{display_of, head, Msg, MsgKind, MsgView};

verus! {

/// How a piece of a line is drawn: plainly, muted (grey, italic), or in one
/// of the palette's light colours, upright or italic.
#[derive(Clone, Copy, Debug, PartialEq, Eq, Structural)]
pub enum Tone {
    Plain,
    Muted,
    Accent(usize),
    AccentItalic(usize),
}

/// Where a line sits in the message pane.
#[derive(Clone, Copy, Debug, PartialEq, Eq, Structural)]
pub enum Align {
    Natural,
    Left,
    Right,
}

/// A run of text with its tone.
#[derive(Debug)]
pub struct Segment {
    pub text: String,
    pub tone: Tone,
}

/// How one message is drawn: its alignment and its runs, left to right.
#[derive(Debug)]
pub struct LinePlan {
    pub align: Align,
    pub segments: Vec<Segment>,
}

/// What a segment holds.
pub struct SegmentView {
    pub text: Seq<char>,
    pub tone: Tone,
}

/// What a line plan holds.
pub struct LinePlanView {
    pub align: Align,
    pub segments: Seq<SegmentView>,
}

impl View for Segment {
    type V = SegmentView;

    open spec fn view(&self) -> SegmentView {
        SegmentView { text: self.text@, tone: self.tone }
    }
}

impl View for LinePlan {
    type V = LinePlanView;

    open spec fn view(&self) -> LinePlanView {
        LinePlanView { align: self.align, segments: self.segments@.map_values(|s: Segment| s@) }
    }
}

/// The number of light colours a sender's name is drawn in.
pub const PALETTE_SIZE: usize = 5;

/// All bytes of `b` combined by exclusive or.
pub open spec fn xor_fold(b: Seq<u8>) -> u8
    decreases b.len(),
{
    if b.len() == 0 {
        0
    } else {
        xor_fold(b.drop_last()) ^ b.last()
    }
}

/// The palette colour of a name: the exclusive or of its UTF-8 bytes, modulo
/// the palette's size.
pub open spec fn palette_of(name: Seq<char>) -> nat {
    (xor_fold(encode_utf8(name)) as nat) % (PALETTE_SIZE as nat)
}

/// A segment of the given text and tone.
pub open spec fn seg(text: Seq<char>, tone: Tone) -> SegmentView {
    SegmentView { text, tone }
}

/// How a message is drawn for the local user `me`: notices muted; chat lines
/// of `me` on the left with the name first, chat lines of others on the right
/// with the name last; commands and repository lines with an italic lead.
pub open spec fn plan_of(m: MsgView, me: Seq<char>) -> LinePlanView {
    let colour = palette_of(m.origin) as usize;
    match m.kind {
        MsgKind::Join | MsgKind::Leave | MsgKind::System => LinePlanView {
            align: Align::Natural,
            segments: seq![seg(display_of(m), Tone::Muted)],
        },
        MsgKind::Chat => if m.origin == me {
            LinePlanView {
                align: Align::Left,
                segments: seq![
                    seg(m.origin + "> "@, Tone::Accent(colour)),
                    seg(head(m), Tone::Plain),
                ],
            }
        } else {
            LinePlanView {
                align: Align::Right,
                segments: seq![
                    seg(head(m), Tone::Plain),
                    seg(" <"@ + m.origin, Tone::Accent(colour)),
                ],
            }
        },
        MsgKind::Raw => LinePlanView { align: Align::Natural, segments: seq![seg(head(m), Tone::Plain)] },
        MsgKind::Command => LinePlanView {
            align: Align::Natural,
            segments: seq![
                seg("Command: "@ + m.origin + "> "@, Tone::AccentItalic(colour)),
                seg(head(m), Tone::Plain),
            ],
        },
        MsgKind::Git => LinePlanView {
            align: Align::Natural,
            segments: seq![seg(Seq::empty(), Tone::AccentItalic(colour)), seg(head(m), Tone::Plain)],
        },
    }
}

/// The palette colour of a sender's name.
pub fn palette_index(name: &str) -> (r: usize)
    ensures
        r == palette_of(name@),
        r < PALETTE_SIZE,
{
    let bytes = name.as_bytes();
    let mut acc: u8 = 0;
    let mut i: usize = 0;
    while i < bytes.len()
        invariant
            i <= bytes@.len(),
            bytes@ == encode_utf8(name@),
            acc == xor_fold(bytes@.subrange(0, i as int)),
        decreases bytes@.len() - i,
    {
        assert(bytes@.subrange(0, i + 1).drop_last() =~= bytes@.subrange(0, i as int));
        acc = acc ^ bytes[i];
        i += 1;
    }
    assert(bytes@.subrange(0, i as int) =~= bytes@);
    (acc as usize) % PALETTE_SIZE
}

fn segment(text: String, tone: Tone) -> (r: Segment)
    ensures
        r@ == seg(text@, tone),
{
    Segment { text, tone }
}

fn plan(align: Align, first: Segment, second: Option<Segment>) -> (r: LinePlan)
    ensures
        r@.align == align,
        r@.segments == match second {
            Some(s) => seq![first@, s@],
            None => seq![first@],
        },
{
    let mut segments: Vec<Segment> = Vec::new();
    segments.push(first);
    match second {
        Some(s) => {
            segments.push(s);
        },
        None => {},
    }
    let r = LinePlan { align, segments };
    assert(r@.segments =~= match second {
        Some(s) => seq![first@, s@],
        None => seq![first@],
    });
    r
}

impl Msg {
    /// How this message is drawn for the local user `me`.
    pub fn line_plan(&self, me: &str) -> (r: LinePlan)
        ensures
            r@ == plan_of(self@, me@),
    {
        let colour = palette_index(self.origin.as_str());
        let line = self.first_line();
        match self.kind {
            MsgKind::Join | MsgKind::Leave | MsgKind::System => {
                plan(Align::Natural, segment(self.display_text(), Tone::Muted), None)
            },
            MsgKind::Chat => {
                let mine = String::from_str(me);
                if self.origin == mine {
                    let name = self.origin.clone().concat("> ");
                    plan(
                        Align::Left,
                        segment(name, Tone::Accent(colour)),
                        Some(segment(line, Tone::Plain)),
                    )
                } else {
                    let name = String::from_str(" <").concat(self.origin.as_str());
                    plan(
                        Align::Right,
                        segment(line, Tone::Plain),
                        Some(segment(name, Tone::Accent(colour))),
                    )
                }
            },
            MsgKind::Raw => plan(Align::Natural, segment(line, Tone::Plain), None),
            MsgKind::Command => {
                let lead = String::from_str("Command: ").concat(self.origin.as_str()).concat("> ");
                plan(
                    Align::Natural,
                    segment(lead, Tone::AccentItalic(colour)),
                    Some(segment(line, Tone::Plain)),
                )
            },
            MsgKind::Git => plan(
                Align::Natural,
                segment(String::new(), Tone::AccentItalic(colour)),
                Some(segment(line, Tone::Plain)),
            ),
        }
    }
}

} // verus!
