//! Decisions of the general probing decoder (the chain's second tier).
//!
//! The tier walks a stream packet by packet. Only the walk's decisions live
//! here: the unverified driver reads each packet, classifies what happened,
//! and feeds the event in; the accumulator answers with the step to take.
//! It keeps the first consistent signal spec it observes, tolerates
//! skippable per-packet faults, asks for a decoder re-instantiation on a
//! mid-stream parameter reset, and treats end-of-stream signaled as an I/O
//! condition as normal completion. Decoded samples arrive as raw bits of
//! 32-bit floats and pass through untouched.

use vstd::prelude::*;

use crate::sample::{DecodedAudio, Sample};

verus! {

/// What the driver observed for one packet of the stream.
pub enum ProbeEvent {
    /// A packet of the chosen track decoded into interleaved samples, given
    /// as raw bits of 32-bit floats, under the given signal spec.
    Decoded { channels: u16, sample_rate: u32, samples: Vec<u32> },
    /// A packet of some other track: skipped.
    OtherTrack,
    /// The stream's parameters changed mid-stream.
    ResetRequired,
    /// A transient per-packet decode fault: skippable.
    SkippableFault,
    /// End of stream, signaled as an I/O condition: normal completion.
    EndOfStream,
    /// An unrecoverable error: the whole tier fails.
    Fatal { cause: String },
}

/// What the driver must do after handing in an event.
pub enum ProbeStep {
    /// Read the next packet.
    Continue,
    /// Re-instantiate the decoder with the track's current parameters,
    /// then read the next packet.
    Reinstantiate,
    /// The stream is complete: collect the result via [`ProbeAccum::finish`].
    Finished,
    /// The tier failed with this cause; the chain falls through.
    Failed { cause: String },
}

/// Why a completed walk still yields no buffer.
#[derive(Clone, Copy, PartialEq, Eq, Structural, Debug)]
pub enum ProbeError {
    /// The stream ended before any packet decoded: there is no signal spec
    /// and no samples.
    EmptyStream,
}

/// The mathematical state of the accumulator: the first signal spec seen,
/// and every sample accumulated so far (as raw float bits).
pub struct ProbeView {
    pub first: Option<(u16, u32)>,
    pub samples: Seq<u32>,
}

/// The accumulating state of one probing-tier attempt.
pub struct ProbeAccum {
    first: Option<(u16, u32)>,
    samples: Vec<u32>,
}

impl View for ProbeAccum {
    type V = ProbeView;

    closed spec fn view(&self) -> ProbeView {
        ProbeView { first: self.first, samples: self.samples@ }
    }
}

impl ProbeAccum {
    /// Start with nothing observed.
    pub fn new() -> (a: ProbeAccum)
        ensures
            a@.first is None,
            a@.samples == Seq::<u32>::empty(),
    {
        ProbeAccum { first: None, samples: Vec::new() }
    }

    /// Fold one event in and say what to do next. Decoded samples are
    /// appended in order; the first observed signal spec is kept and later
    /// ones are ignored; every other event leaves the accumulation as it
    /// was.
    pub fn on_event(&mut self, ev: ProbeEvent) -> (step: ProbeStep)
        ensures
            ev matches ProbeEvent::Decoded { channels, sample_rate, samples } ==> {
                &&& final(self)@.samples == old(self)@.samples + samples@
                &&& final(self)@.first == (if old(self)@.first is Some {
                    old(self)@.first
                } else {
                    Some((channels, sample_rate))
                })
                &&& step is Continue
            },
            ev is OtherTrack || ev is SkippableFault ==> final(self)@ == old(self)@
                && step is Continue,
            ev is ResetRequired ==> final(self)@ == old(self)@ && step is Reinstantiate,
            ev is EndOfStream ==> final(self)@ == old(self)@ && step is Finished,
            ev matches ProbeEvent::Fatal { cause } ==> final(self)@ == old(self)@ && (
            step matches ProbeStep::Failed { cause: c } && c@ == cause@),
    {
        match ev {
            ProbeEvent::Decoded { channels, sample_rate, mut samples } => {
                if self.first.is_none() {
                    self.first = Some((channels, sample_rate));
                }
                self.samples.append(&mut samples);
                ProbeStep::Continue
            },
            ProbeEvent::OtherTrack => ProbeStep::Continue,
            ProbeEvent::ResetRequired => ProbeStep::Reinstantiate,
            ProbeEvent::SkippableFault => ProbeStep::Continue,
            ProbeEvent::EndOfStream => ProbeStep::Finished,
            ProbeEvent::Fatal { cause } => ProbeStep::Failed { cause },
        }
    }

    /// Turn a completed walk into the canonical buffer: the first observed
    /// signal spec and every accumulated sample, as float pass-through. A
    /// walk that never decoded a packet has no spec to offer and fails.
    pub fn finish(self) -> (r: Result<DecodedAudio, ProbeError>)
        ensures
            r is Ok <==> self@.first is Some,
            r matches Err(e) ==> e == ProbeError::EmptyStream,
            r matches Ok(d) ==> {
                &&& self@.first == Some((d.channels, d.sample_rate))
                &&& d.samples@.len() == self@.samples.len()
                &&& forall|j: int|
                    0 <= j < d.samples@.len() ==> d.samples@[j] == (Sample::FloatBits {
                        bits: self@.samples[j],
                    })
            },
    {
        match self.first {
            None => Err(ProbeError::EmptyStream),
            Some((channels, sample_rate)) => {
                let mut out: Vec<Sample> = Vec::new();
                let n = self.samples.len();
                let mut j: usize = 0;
                while j < n
                    invariant
                        j <= n,
                        n == self.samples.len(),
                        out@.len() == j as int,
                        forall|k: int|
                            0 <= k < j as int ==> out@[k] == (Sample::FloatBits {
                                bits: self.samples@[k],
                            }),
                    decreases n - j,
                {
                    out.push(Sample::FloatBits { bits: self.samples[j] });
                    j = j + 1;
                }
                Ok(DecodedAudio { channels, sample_rate, samples: out })
            },
        }
    }
}

} // verus!
