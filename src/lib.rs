//! The core of a terminal chat fed by a peer-to-peer topic: messages and
//! their wire records, the ordered history with its scroll cursor, the input
//! modes that read keystrokes, how messages are drawn, and what the network
//! task does about each event.

pub mod args;
pub mod history;
pub mod msg;
pub mod net;
pub mod render;
pub mod text;
pub mod ui;
