//! The owner thread's state machine.
//!
//! One dedicated thread owns the output device and the active voice. This
//! module holds only its decisions: which action each command demands and
//! which state follows. The unverified worker loop performs the actions
//! (start or stop an actual voice, run the decode chain, write a log line)
//! and reports decode outcomes back.
//!
//! If the device failed to initialize at startup, the engine is permanently
//! degraded: every command is answered with [`Action::Noop`]. The worker
//! logs that failure once, at startup, not per command.

use vstd::prelude::*;

use crate::command::{Msg, MsgView};

verus! {

/// Where the owner thread stands: nothing playing, a decode in progress
/// for a play command, or a voice playing.
#[derive(Clone, Copy, PartialEq, Eq, Structural, Debug)]
pub enum Phase {
    Idle,
    Decoding,
    Playing,
}

/// What the worker loop must do next. `Noop` asks for nothing at all — in
/// particular, nothing is logged beyond trace level.
pub enum Action {
    Noop,
    /// Retire the active voice.
    StopVoice,
    /// Run the decode chain on `path`; retire the active voice first when
    /// `retire` is set.
    BeginDecode { retire: bool, path: String },
    /// Bind the freshly decoded buffer for `path` to a new voice and start it.
    StartVoice { path: String },
    /// Write the one aggregated log entry for a decode of `path` that
    /// exhausted every tier.
    LogDecodeFailure { path: String },
}

/// The mathematical shape of an [`Action`].
pub enum ActionView {
    Noop,
    StopVoice,
    BeginDecode { retire: bool, path: Seq<char> },
    StartVoice { path: Seq<char> },
    LogDecodeFailure { path: Seq<char> },
}

impl View for Action {
    type V = ActionView;

    open spec fn view(&self) -> ActionView {
        match self {
            Action::Noop => ActionView::Noop,
            Action::StopVoice => ActionView::StopVoice,
            Action::BeginDecode { retire, path } => ActionView::BeginDecode {
                retire: *retire,
                path: path@,
            },
            Action::StartVoice { path } => ActionView::StartVoice { path: path@ },
            Action::LogDecodeFailure { path } => ActionView::LogDecodeFailure { path: path@ },
        }
    }
}

/// The mathematical state of the engine: whether the device came up, the
/// phase, and the path bound to the pending or active voice.
pub struct EngineView {
    pub device_ok: bool,
    pub phase: Phase,
    pub current: Option<Seq<char>>,
}

impl EngineView {
    /// A path is bound exactly while a decode is pending or a voice is
    /// active; `Option` makes "zero or one active voice" structural.
    pub open spec fn wf(self) -> bool {
        self.phase == Phase::Idle <==> self.current is None
    }
}

/// The engine's state at worker startup: idle, with no voice, degraded
/// for good if the device did not come up.
pub open spec fn engine_new(device_ok: bool) -> EngineView {
    EngineView { device_ok, phase: Phase::Idle, current: None }
}

/// One command step. Degraded engines ignore everything. `Stop` retires
/// the voice if one plays and is a no-op otherwise. `Play` always retires
/// any active voice before its decode begins, and leaves the engine
/// waiting for the decode outcome.
pub open spec fn on_command_step(v: EngineView, cmd: MsgView) -> (EngineView, ActionView) {
    if !v.device_ok {
        (v, ActionView::Noop)
    } else {
        match cmd {
            MsgView::Stop => {
                if v.phase == Phase::Playing {
                    (
                        EngineView { phase: Phase::Idle, current: None, ..v },
                        ActionView::StopVoice,
                    )
                } else {
                    (v, ActionView::Noop)
                }
            },
            MsgView::Play(p) => {
                (
                    EngineView { phase: Phase::Decoding, current: Some(p), ..v },
                    ActionView::BeginDecode { retire: v.phase == Phase::Playing, path: p },
                )
            },
        }
    }
}

/// The step after the decode chain reports back: success starts the voice
/// for the pending path; failure returns to idle — with silence, no
/// resumption of any earlier voice — and asks for exactly one aggregated
/// log entry.
pub open spec fn on_decode_step(v: EngineView, ok: bool) -> (EngineView, ActionView) {
    match v.current {
        Some(p) => {
            if ok {
                (EngineView { phase: Phase::Playing, ..v }, ActionView::StartVoice { path: p })
            } else {
                (
                    EngineView { phase: Phase::Idle, current: None, ..v },
                    ActionView::LogDecodeFailure { path: p },
                )
            }
        },
        None => (v, ActionView::Noop),
    }
}

/// The owner thread's decision state. The worker loop feeds it one command
/// at a time and performs the actions it returns.
pub struct Engine {
    device_ok: bool,
    phase: Phase,
    current: Option<String>,
}

impl View for Engine {
    type V = EngineView;

    closed spec fn view(&self) -> EngineView {
        EngineView {
            device_ok: self.device_ok,
            phase: self.phase,
            current: match self.current {
                Some(p) => Some(p@),
                None => None,
            },
        }
    }
}

impl Engine {
    /// Start the engine, degraded for the process lifetime when the device
    /// failed to initialize.
    pub fn new(device_ok: bool) -> (e: Engine)
        ensures
            e@ == engine_new(device_ok),
            e@.wf(),
    {
        Engine { device_ok, phase: Phase::Idle, current: None }
    }

    /// The phase the engine is in.
    pub fn phase(&self) -> (p: Phase)
        ensures
            p == self@.phase,
    {
        self.phase
    }

    /// The path bound to the pending or active voice, if any.
    pub fn current_path(&self) -> (r: Option<String>)
        ensures
            r is Some <==> self@.current is Some,
            r matches Some(p) ==> self@.current == Some(p@),
    {
        match &self.current {
            Some(p) => Some(p.clone()),
            None => None,
        }
    }

    /// Handle one dequeued command. Commands are handled strictly one at a
    /// time: the decode a `Play` begins is resolved (through
    /// [`Engine::on_decode_result`]) before the next command is read.
    pub fn on_command(&mut self, cmd: Msg) -> (a: Action)
        requires
            old(self)@.wf(),
            old(self)@.phase != Phase::Decoding,
        ensures
            final(self)@.wf(),
            (final(self)@, a@) == on_command_step(old(self)@, cmd@),
    {
        if !self.device_ok {
            return Action::Noop;
        }
        match cmd {
            Msg::Stop => {
                if self.phase == Phase::Playing {
                    self.phase = Phase::Idle;
                    self.current = None;
                    Action::StopVoice
                } else {
                    Action::Noop
                }
            },
            Msg::Play(p) => {
                let retire = self.phase == Phase::Playing;
                self.phase = Phase::Decoding;
                self.current = Some(p.clone());
                Action::BeginDecode { retire, path: p }
            },
        }
    }

    /// Resolve the pending decode: bind the buffer to a new voice on
    /// success, or return to idle with one aggregated failure log.
    pub fn on_decode_result(&mut self, ok: bool) -> (a: Action)
        requires
            old(self)@.wf(),
            old(self)@.phase == Phase::Decoding,
        ensures
            final(self)@.wf(),
            (final(self)@, a@) == on_decode_step(old(self)@, ok),
    {
        let p = match self.current.take() {
            Some(p) => p,
            None => vstd::pervasive::unreached(),
        };
        if ok {
            self.phase = Phase::Playing;
            self.current = Some(p.clone());
            Action::StartVoice { path: p }
        } else {
            self.phase = Phase::Idle;
            self.current = None;
            Action::LogDecodeFailure { path: p }
        }
    }
}

/// A `Stop` read while idle is a no-op: same state back, and an action
/// that asks for nothing — no error, no transition, nothing logged beyond
/// trace.
pub proof fn lemma_stop_while_idle_is_noop(v: EngineView)
    requires
        v.wf(),
        v.phase == Phase::Idle,
    ensures
        on_command_step(v, MsgView::Stop) == (v, ActionView::Noop),
{
}

/// Two plays handled back to back, each decode succeeding, are processed
/// strictly in order: the first path's voice is started, then retired
/// before the second decode begins (the `retire` flag of the second
/// `BeginDecode`), and the only voice left standing holds the second
/// path's content. The engine never binds two voices at once: every state
/// along the way carries at most one bound path.
pub proof fn lemma_back_to_back_plays(v0: EngineView, a: Seq<char>, b: Seq<char>)
    requires
        v0.wf(),
        v0.device_ok,
        v0.phase == Phase::Idle,
    ensures
        ({
            let (v1, act1) = on_command_step(v0, MsgView::Play(a));
            let (v2, act2) = on_decode_step(v1, true);
            let (v3, act3) = on_command_step(v2, MsgView::Play(b));
            let (v4, act4) = on_decode_step(v3, true);
            &&& act1 == (ActionView::BeginDecode { retire: false, path: a })
            &&& act2 == (ActionView::StartVoice { path: a })
            &&& act3 == (ActionView::BeginDecode { retire: true, path: b })
            &&& act4 == (ActionView::StartVoice { path: b })
            &&& v4.wf() && v4.phase == Phase::Playing && v4.current == Some(b)
        }),
{
}

} // verus!
