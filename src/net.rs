use vstd::prelude::*;

use crate::msg::{blank_from, line_of_kind, Msg, MsgKind, MsgView};

verus! {

/// How many messages each direction of the bus holds before a sender waits.
pub const CHANNEL_CAPACITY: usize = 100;

/// The interval of one render tick, and the longest wait for a key in it.
pub const TICK_MILLIS: u64 = 10;

/// How long after start-up the presence announcement goes out.
pub const JOIN_DELAY_MILLIS: u64 = 1000;

/// How long the network side gets to publish the goodbye before exit.
pub const LEAVE_GRACE_MILLIS: u64 = 500;

/// What reaches the network task: a message from the UI to publish, a failed
/// publish with the error's text, or a payload from a peer, decoded or with
/// the decoder's error text.
#[derive(Debug)]
pub enum NetEvent {
    Outgoing(Msg),
    PublishFailed(String),
    Payload(Result<Msg, String>),
}

/// What the network task does about an event: publish a message to the
/// topic, or hand one to the UI.
#[derive(Debug)]
pub enum NetAction {
    Publish(Msg),
    Deliver(Msg),
}

/// What an action holds, with its message as a view.
pub enum NetActionView {
    Publish(MsgView),
    Deliver(MsgView),
}

impl View for NetAction {
    type V = NetActionView;

    open spec fn view(&self) -> NetActionView {
        match self {
            NetAction::Publish(m) => NetActionView::Publish(m@),
            NetAction::Deliver(m) => NetActionView::Deliver(m@),
        }
    }
}

/// The presence notice of `origin`.
pub open spec fn notice(origin: Seq<char>, kind: MsgKind) -> MsgView {
    MsgView { kind, ..blank_from(origin) }
}

/// The record of a failed publish.
pub open spec fn publish_failure_of(origin: Seq<char>, err: Seq<char>) -> MsgView {
    line_of_kind(origin, "publish error: "@ + err, MsgKind::System)
}

/// The record of a payload that did not decode.
pub open spec fn decode_failure_of(origin: Seq<char>, err: Seq<char>) -> MsgView {
    line_of_kind(origin, "Error deserializing message: "@ + err, MsgKind::System)
}

/// The network task's decision for one event; failures become system
/// messages for the UI, never an end of the task.
pub open spec fn net_step_spec(origin: Seq<char>, ev: NetEvent) -> NetActionView {
    match ev {
        NetEvent::Outgoing(m) => NetActionView::Publish(m@),
        NetEvent::PublishFailed(e) => NetActionView::Deliver(publish_failure_of(origin, e@)),
        NetEvent::Payload(Ok(m)) => NetActionView::Deliver(m@),
        NetEvent::Payload(Err(e)) => NetActionView::Deliver(decode_failure_of(origin, e@)),
    }
}

fn system_line(origin: &str, lead: &str, err: &str) -> (r: Msg)
    ensures
        r@ == line_of_kind(origin@, lead@ + err@, MsgKind::System),
{
    let text = String::from_str(lead).concat(err);
    let r = Msg::new(String::from_str(origin)).set_content(text).set_kind(MsgKind::System);
    assert(r@.content =~= seq![lead@ + err@]);
    r
}

/// The announcement that `origin` joined.
pub fn join_message(origin: &str) -> (r: Msg)
    ensures
        r@ == notice(origin@, MsgKind::Join),
        r.wf(),
{
    Msg::new(String::from_str(origin)).set_kind(MsgKind::Join)
}

/// The announcement that `origin` left.
pub fn leave_message(origin: &str) -> (r: Msg)
    ensures
        r@ == notice(origin@, MsgKind::Leave),
        r.wf(),
{
    Msg::new(String::from_str(origin)).set_kind(MsgKind::Leave)
}

/// The system message recording a failed publish.
pub fn publish_failure(origin: &str, err: &str) -> (r: Msg)
    ensures
        r@ == publish_failure_of(origin@, err@),
{
    system_line(origin, "publish error: ", err)
}

/// The system message recording a payload that did not decode.
pub fn decode_failure(origin: &str, err: &str) -> (r: Msg)
    ensures
        r@ == decode_failure_of(origin@, err@),
{
    system_line(origin, "Error deserializing message: ", err)
}

/// Decides what the network task does about `ev`, for the local identity
/// `origin`.
pub fn net_step(origin: &str, ev: NetEvent) -> (r: NetAction)
    ensures
        r@ == net_step_spec(origin@, ev),
{
    match ev {
        NetEvent::Outgoing(m) => NetAction::Publish(m),
        NetEvent::PublishFailed(e) => NetAction::Deliver(publish_failure(origin, e.as_str())),
        NetEvent::Payload(Ok(m)) => NetAction::Deliver(m),
        NetEvent::Payload(Err(e)) => NetAction::Deliver(decode_failure(origin, e.as_str())),
    }
}

} // verus!
