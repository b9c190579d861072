//! The public-facing playback service.
//!
//! A handle that submits commands to the owner thread over an unbounded,
//! ordered, single-consumer channel. Submission never blocks and has no
//! synchronous effect; decoding, playback and error logging all happen
//! later on the owner thread. The only failure the service ever surfaces
//! is the owner thread being gone.

use vstd::prelude::*;

use crate::command::Msg;

verus! {

/// The one error the playback service reports to its callers: the owner
/// thread has terminated, so its receiving end is closed.
#[derive(Clone, Copy, PartialEq, Eq, Structural, Debug)]
pub enum ServiceError {
    ServiceUnavailable,
}

/// Sending end of the owner thread's command channel, declared so the
/// handle can hold one. Relies on std::sync::mpsc::Sender.
#[verifier::external_type_specification]
#[verifier::external_body]
#[verifier::reject_recursive_types(T)]
pub struct ExSender<T>(std::sync::mpsc::Sender<T>);

/// Relies on std::sync::mpsc::Sender::send: the command is delivered in
/// submission order unless the receiver is gone. Whether delivery succeeds
/// depends on the receiver still being alive, so nothing is promised of
/// the outcome.
#[verifier::external_body]
fn send_msg(tx: &std::sync::mpsc::Sender<Msg>, m: Msg) -> (delivered: bool) {
    tx.send(m).is_ok()
}

/// Relies on std::sync::mpsc::Sender::clone: another sending end of the
/// same channel.
#[verifier::external_body]
fn clone_sender(tx: &std::sync::mpsc::Sender<Msg>) -> (r: std::sync::mpsc::Sender<Msg>) {
    tx.clone()
}

/// The handle callers use to reach the playback engine. Cheap to clone;
/// every clone feeds the same owner thread in first-in-first-out order.
pub struct AudioHandle {
    tx: std::sync::mpsc::Sender<Msg>,
}

impl Clone for AudioHandle {
    fn clone(&self) -> AudioHandle {
        AudioHandle { tx: clone_sender(&self.tx) }
    }
}

impl AudioHandle {
    /// Wrap the sending end of the owner thread's command channel. The
    /// unverified startup code spawns the thread and hands the sender in.
    pub fn from_sender(tx: std::sync::mpsc::Sender<Msg>) -> AudioHandle {
        AudioHandle { tx }
    }

    /// Enqueue a play command for `path`. Non-blocking; returns at once.
    /// Fails only when the owner thread has terminated — never for a bad
    /// path or an unsupported format, which are resolved asynchronously on
    /// the owner thread and only logged.
    pub fn play_path(&self, path: String) -> (r: Result<(), ServiceError>)
        ensures
            r matches Err(e) ==> e == ServiceError::ServiceUnavailable,
    {
        if send_msg(&self.tx, Msg::Play(path)) {
            Ok(())
        } else {
            Err(ServiceError::ServiceUnavailable)
        }
    }

    /// Enqueue a stop command. Best-effort: a submission failure (the
    /// owner thread being gone) is ignored.
    pub fn stop(&self) {
        let _ = send_msg(&self.tx, Msg::Stop);
    }
}

} // verus!
