//! The decode chain's fallback policy.
//!
//! Three tiers are tried strictly top to bottom: the structured fast path,
//! then the general probing decoder, then the last-resort generic decoder.
//! Each tier failure is recorded and the chain moves to the next tier; when
//! all three have failed, their causes make up one aggregated error. No
//! partial results are mixed across tiers.

use vstd::prelude::*;

use crate::engine::{on_decode_step, ActionView, EngineView, Phase};

verus! {

/// One strategy of the decode chain, in fallback order.
#[derive(Clone, Copy, PartialEq, Eq, Structural, Debug)]
pub enum TierId {
    /// Structured-format fast path: parses a recognized container directly.
    Structured,
    /// General probing decoder: inspects the stream and decodes packet by packet.
    Probing,
    /// Last-resort generic decoder.
    Generic,
}

/// The mathematical state of one run of the chain: the tier to try next
/// (none when exhausted) and the failure causes recorded so far.
pub struct ChainView {
    pub next: Option<TierId>,
    pub causes: Seq<Seq<char>>,
}

/// A fresh run: the structured fast path is always tried first.
pub open spec fn chain_new() -> ChainView {
    ChainView { next: Some(TierId::Structured), causes: Seq::empty() }
}

/// The tier tried after a failure of the given one.
pub open spec fn tier_after(t: TierId) -> Option<TierId> {
    match t {
        TierId::Structured => Some(TierId::Probing),
        TierId::Probing => Some(TierId::Generic),
        TierId::Generic => None,
    }
}

/// Record one tier failure: its cause is appended and the chain falls
/// through to the next tier.
pub open spec fn chain_fail_step(c: ChainView, cause: Seq<char>) -> ChainView {
    match c.next {
        Some(t) => ChainView { next: tier_after(t), causes: c.causes.push(cause) },
        None => c,
    }
}

/// All tiers failed for one play: one error embedding every tier's cause,
/// in the order the tiers were attempted.
pub struct AggregateDecodeError {
    pub causes: Vec<String>,
}

/// One run of the decode chain for a single play command.
pub struct ChainRun {
    next: Option<TierId>,
    causes: Vec<String>,
}

impl View for ChainRun {
    type V = ChainView;

    closed spec fn view(&self) -> ChainView {
        ChainView { next: self.next, causes: self.causes@.map_values(|s: String| s@) }
    }
}

impl ChainRun {
    /// Start a run at the first tier.
    pub fn new() -> (c: ChainRun)
        ensures
            c@ == chain_new(),
    {
        let c = ChainRun { next: Some(TierId::Structured), causes: Vec::new() };
        proof {
            assert(c@.causes =~= Seq::<Seq<char>>::empty());
        }
        c
    }

    /// The tier to attempt next, if any is left.
    pub fn current_tier(&self) -> (t: Option<TierId>)
        ensures
            t == self@.next,
    {
        self.next
    }

    /// Record that the current tier failed with the given cause and fall
    /// through to the next tier.
    pub fn record_failure(&mut self, cause: String)
        requires
            old(self)@.next is Some,
        ensures
            final(self)@ == chain_fail_step(old(self)@, cause@),
    {
        let t = match self.next {
            Some(t) => t,
            None => vstd::pervasive::unreached(),
        };
        self.next = match t {
            TierId::Structured => Some(TierId::Probing),
            TierId::Probing => Some(TierId::Generic),
            TierId::Generic => None,
        };
        self.causes.push(cause);
        proof {
            assert(self@.causes =~= old(self)@.causes.push(cause@));
        }
    }

    /// Whether every tier has been attempted and failed.
    pub fn exhausted(&self) -> (r: bool)
        ensures
            r == (self@.next is None),
    {
        self.next.is_none()
    }

    /// Turn an exhausted run into the one aggregated error, keeping every
    /// recorded cause in tier order.
    pub fn into_aggregate(self) -> (e: AggregateDecodeError)
        requires
            self@.next is None,
        ensures
            e.causes@.map_values(|s: String| s@) == self@.causes,
    {
        AggregateDecodeError { causes: self.causes }
    }
}

/// The fallback order is fixed: the structured fast path is attempted
/// first; a file it cannot serve (it cannot open it, or the encoding is
/// outside its table — 64-bit floats included) falls to the probing
/// decoder, and only after that failure to the generic decoder.
pub proof fn lemma_fallback_order(e1: Seq<char>, e2: Seq<char>)
    ensures
        chain_new().next == Some(TierId::Structured),
        chain_fail_step(chain_new(), e1).next == Some(TierId::Probing),
        chain_fail_step(chain_fail_step(chain_new(), e1), e2).next == Some(TierId::Generic),
{
}

/// When every tier fails for one play, the chain is exhausted holding
/// exactly the three causes in tier order, and the engine resolves the
/// decode by returning to idle with exactly one aggregated-log action — no
/// voice change, no error to the original caller.
pub proof fn lemma_all_tiers_exhausted(e1: Seq<char>, e2: Seq<char>, e3: Seq<char>, v: EngineView)
    requires
        v.wf(),
        v.phase == Phase::Decoding,
    ensures
        ({
            let c = chain_fail_step(chain_fail_step(chain_fail_step(chain_new(), e1), e2), e3);
            &&& c.next is None
            &&& c.causes =~= seq![e1, e2, e3]
            &&& v.current matches Some(p) && on_decode_step(v, false) == (
                EngineView { phase: Phase::Idle, current: None, ..v },
                ActionView::LogDecodeFailure { path: p },
            )
        }),
{
}

} // verus!
