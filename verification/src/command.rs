//! Commands accepted by the playback engine.

use vstd::prelude::*;

verus! {

/// A command for the owner thread: start playing the file at a path, or
/// stop whatever is playing. Created by any caller, consumed exactly once.
pub enum Msg {
    Play(String),
    Stop,
}

/// The mathematical shape of a command: the path as a character sequence.
pub enum MsgView {
    Play(Seq<char>),
    Stop,
}

impl View for Msg {
    type V = MsgView;

    open spec fn view(&self) -> MsgView {
        match self {
            Msg::Play(p) => MsgView::Play(p@),
            Msg::Stop => MsgView::Stop,
        }
    }
}

} // verus!
