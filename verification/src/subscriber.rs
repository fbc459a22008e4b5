//! The subscriber's side of a run: the automaton that classifies each
//! received envelope, the statistics it gathers, and the summary computed
//! once the run is complete.

use crate::clock::now_micros;
use crate::envelope::{decode, decoded, DecodeError, Envelope, EnvelopeView, Kind};
use crate::json::json_parse;
use vstd::prelude::*;
use vstd::string::*;
use vstd::utf8::encode_utf8;

verus! {

/// Where the subscriber stands in a run.
#[derive(Clone, Copy, Debug, PartialEq, Eq, Structural)]
pub enum Phase {
    /// No envelope of the measured run has been seen.
    AwaitingFirst,
    /// The run has been opened and not yet closed.
    Measuring,
    /// The run has been closed; the statistics are final.
    Done,
}

/// What the subscriber did with one envelope.
#[derive(Clone, Copy, Debug, PartialEq, Eq, Structural)]
pub enum Outcome {
    /// Warm-up traffic: noted, nothing changed.
    Warmup,
    /// The envelope opened the measured run.
    Began,
    /// The envelope was counted inside the measured run.
    Counted,
    /// The envelope closed the measured run.
    Finished,
    /// The envelope's kind is not known: noted, nothing changed.
    Unrecognized,
    /// The envelope does not fit the run at this point: nothing changed.
    Ignored,
}

/// What became of one received text: what was done with its envelope, and
/// the envelope's sequence number.
#[derive(Clone, Copy, Debug, PartialEq, Eq, Structural)]
pub struct Receipt {
    pub outcome: Outcome,
    pub sequence_id: u32,
}

/// The largest number of envelopes that a measured run can have: the
/// largest run length that an envelope can declare.
pub const RUN_LIMIT: u32 = 0xffff_ffff;

/// What a subscriber has gathered about the measured run.
#[derive(Debug, PartialEq, Eq)]
pub struct RunStatistics {
    /// Envelopes of the measured run received so far.
    pub received_count: u32,
    /// Local time at which the run was opened, in microseconds.
    pub analysis_begin_micros: Option<i64>,
    /// Local time at which the run was closed, in microseconds.
    pub analysis_end_micros: Option<i64>,
    /// Run length declared by the closing envelope.
    pub declared_total: Option<u32>,
    /// Payload size of the closing envelope, in bytes.
    pub payload_size: Option<usize>,
    /// Local receive time minus stamped send time of each counted
    /// `Regular` envelope, in order of receipt; empty unless latency is
    /// measured.
    pub latency_samples: Vec<i128>,
}

/// Run statistics with the samples as a sequence.
pub ghost struct RunStatisticsView {
    pub received_count: u32,
    pub analysis_begin_micros: Option<i64>,
    pub analysis_end_micros: Option<i64>,
    pub declared_total: Option<u32>,
    pub payload_size: Option<usize>,
    pub latency_samples: Seq<i128>,
}

impl View for RunStatistics {
    type V = RunStatisticsView;

    open spec fn view(&self) -> RunStatisticsView {
        RunStatisticsView {
            received_count: self.received_count,
            analysis_begin_micros: self.analysis_begin_micros,
            analysis_end_micros: self.analysis_end_micros,
            declared_total: self.declared_total,
            payload_size: self.payload_size,
            latency_samples: self.latency_samples@,
        }
    }
}

/// The state of the automaton.
pub ghost struct SubscriberView {
    pub latency_enabled: bool,
    pub phase: Phase,
    pub stats: RunStatisticsView,
}

/// Length of a payload in bytes.
pub open spec fn payload_bytes(payload: Seq<char>) -> nat {
    encode_utf8(payload).len()
}

/// The state before any envelope.
pub open spec fn initial(latency_enabled: bool) -> SubscriberView {
    SubscriberView {
        latency_enabled,
        phase: Phase::AwaitingFirst,
        stats: RunStatisticsView {
            received_count: 0,
            analysis_begin_micros: None,
            analysis_end_micros: None,
            declared_total: None,
            payload_size: None,
            latency_samples: Seq::empty(),
        },
    }
}

/// What the automaton does with an envelope in a given state.
///
/// Warm-up traffic and unknown kinds are noted in every state. `First`
/// opens the run only while none is open. `Regular` is counted only inside
/// an open run, and only while the count leaves room for the closing
/// envelope within `RUN_LIMIT`. `Last` closes the run unless it is already
/// closed; a `Last` that arrives before any `First` is a run of one
/// envelope, which it opens and closes at once.
pub open spec fn outcome_of(state: SubscriberView, envelope: EnvelopeView) -> Outcome {
    match envelope.kind {
        Kind::Startup => Outcome::Warmup,
        Kind::Unrecognized => Outcome::Unrecognized,
        Kind::First => if state.phase == Phase::AwaitingFirst {
            Outcome::Began
        } else {
            Outcome::Ignored
        },
        Kind::Regular => if state.phase == Phase::Measuring && state.stats.received_count
            < RUN_LIMIT - 1 {
            Outcome::Counted
        } else {
            Outcome::Ignored
        },
        Kind::Last => if state.phase == Phase::Done {
            Outcome::Ignored
        } else {
            Outcome::Finished
        },
    }
}

/// Latency of an envelope received at `now_micros`.
pub open spec fn latency_of(envelope: EnvelopeView, now_micros: i64) -> i128 {
    (now_micros - envelope.send_timestamp_micros) as i128
}

/// The state after an envelope received at the local time `now_micros`.
pub open spec fn step_view(state: SubscriberView, envelope: EnvelopeView, now_micros: i64) -> SubscriberView {
    match outcome_of(state, envelope) {
        Outcome::Began => SubscriberView {
            phase: Phase::Measuring,
            stats: RunStatisticsView {
                received_count: (state.stats.received_count + 1) as u32,
                analysis_begin_micros: Some(now_micros),
                ..state.stats
            },
            ..state
        },
        Outcome::Counted => SubscriberView {
            stats: RunStatisticsView {
                received_count: (state.stats.received_count + 1) as u32,
                latency_samples: if state.latency_enabled {
                    state.stats.latency_samples.push(latency_of(envelope, now_micros))
                } else {
                    state.stats.latency_samples
                },
                ..state.stats
            },
            ..state
        },
        Outcome::Finished => SubscriberView {
            phase: Phase::Done,
            stats: RunStatisticsView {
                received_count: (state.stats.received_count + 1) as u32,
                analysis_begin_micros: if state.phase == Phase::AwaitingFirst {
                    Some(now_micros)
                } else {
                    state.stats.analysis_begin_micros
                },
                analysis_end_micros: Some(now_micros),
                declared_total: Some(envelope.declared_total),
                payload_size: Some(payload_bytes(envelope.payload) as usize),
                ..state.stats
            },
            ..state
        },
        _ => state,
    }
}

/// Number of `Regular` envelopes that a state has counted.
pub open spec fn regulars_counted(state: SubscriberView) -> int {
    match state.phase {
        Phase::AwaitingFirst => 0,
        Phase::Measuring => state.stats.received_count - 1,
        Phase::Done => if state.stats.received_count >= 2 {
            state.stats.received_count - 2
        } else {
            0
        },
    }
}

/// Whether a latency fits the difference of two 64-bit times.
pub open spec fn sample_in_range(sample: i128) -> bool {
    -0x1_0000_0000_0000_0000 < sample < 0x1_0000_0000_0000_0000
}

impl SubscriberView {
    /// What holds of every state that the automaton reaches.
    ///
    /// Before the run nothing is recorded. Inside a run the opening time is
    /// set and nothing of the closing envelope. After the run both times
    /// and both captured fields are set. In every state the samples are as
    /// many as the `Regular` envelopes counted when latency is measured,
    /// and none otherwise.
    pub open spec fn wf(self) -> bool {
        &&& match self.phase {
            Phase::AwaitingFirst => {
                &&& self.stats.received_count == 0
                &&& self.stats.analysis_begin_micros is None
                &&& self.stats.analysis_end_micros is None
                &&& self.stats.declared_total is None
                &&& self.stats.payload_size is None
            },
            Phase::Measuring => {
                &&& 1 <= self.stats.received_count < RUN_LIMIT
                &&& self.stats.analysis_begin_micros is Some
                &&& self.stats.analysis_end_micros is None
                &&& self.stats.declared_total is None
                &&& self.stats.payload_size is None
            },
            Phase::Done => {
                &&& 1 <= self.stats.received_count
                &&& self.stats.analysis_begin_micros is Some
                &&& self.stats.analysis_end_micros is Some
                &&& self.stats.declared_total is Some
                &&& self.stats.payload_size is Some
                &&& self.stats.received_count == 1 ==> self.stats.analysis_begin_micros
                    == self.stats.analysis_end_micros
            },
        }
        &&& self.stats.latency_samples.len() == if self.latency_enabled {
            regulars_counted(self)
        } else {
            0
        }
        &&& forall|i: int|
            0 <= i < self.stats.latency_samples.len() ==> sample_in_range(
                #[trigger] self.stats.latency_samples[i],
            )
    }
}

/// Sum of a list of samples.
pub open spec fn total(samples: Seq<i128>) -> int
    decreases samples.len(),
{
    if samples.len() == 0 {
        0
    } else {
        total(samples.drop_last()) + samples.last()
    }
}

/// Quotient rounded toward zero.
pub open spec fn quotient_toward_zero(dividend: int, divisor: int) -> int
    recommends
        divisor > 0,
{
    if dividend >= 0 {
        dividend / divisor
    } else {
        -((-dividend) / divisor)
    }
}

/// The figures of a completed run.
#[derive(Clone, Copy, Debug, PartialEq, Eq, Structural)]
pub struct Summary {
    /// Run length that the closing envelope declared.
    pub declared_total: u32,
    /// Envelopes of the measured run that were received.
    pub received_count: u32,
    /// Local time from the opening to the closing envelope, in microseconds.
    pub duration_micros: i128,
    /// Payload size of the closing envelope, in bytes.
    pub payload_size: usize,
    /// `received_count * payload_size`.
    pub total_bytes: u128,
    /// Whole bytes per second; `None` unless the duration is positive.
    pub bytes_per_second: Option<u128>,
    /// Whole messages per second; `None` unless the duration is positive.
    pub messages_per_second: Option<u128>,
    /// Sum of the latency samples; `None` where there is no sample.
    pub total_latency_micros: Option<i128>,
    /// Mean latency, rounded toward zero; `None` where there is no sample.
    pub average_latency_micros: Option<i128>,
}

/// The summary of a state: `None` until the run is complete.
///
/// A duration that is zero or negative (both ends received in the same
/// microsecond, or a clock set back in between) has no throughput: the two
/// rates are `None`.
pub open spec fn summary_of(state: SubscriberView) -> Option<Summary> {
    if state.phase != Phase::Done {
        None
    } else {
        let stats = state.stats;
        let duration = stats.analysis_end_micros.unwrap() - stats.analysis_begin_micros.unwrap();
        let bytes = stats.received_count * stats.payload_size.unwrap();
        let samples = stats.latency_samples;
        Some(
            Summary {
                declared_total: stats.declared_total.unwrap(),
                received_count: stats.received_count,
                duration_micros: duration as i128,
                payload_size: stats.payload_size.unwrap(),
                total_bytes: bytes as u128,
                bytes_per_second: if duration > 0 {
                    Some((bytes * 1_000_000 / duration) as u128)
                } else {
                    None
                },
                messages_per_second: if duration > 0 {
                    Some((stats.received_count * 1_000_000 / duration) as u128)
                } else {
                    None
                },
                total_latency_micros: if samples.len() > 0 {
                    Some(total(samples) as i128)
                } else {
                    None
                },
                average_latency_micros: if samples.len() > 0 {
                    Some(quotient_toward_zero(total(samples), samples.len() as int) as i128)
                } else {
                    None
                },
            },
        )
    }
}

/// The sum of in-range samples is within their number times the range.
pub proof fn lemma_total_bounds(samples: Seq<i128>)
    requires
        forall|i: int| 0 <= i < samples.len() ==> sample_in_range(#[trigger] samples[i]),
    ensures
        -0x1_0000_0000_0000_0000 * samples.len() <= total(samples) <= 0x1_0000_0000_0000_0000
            * samples.len(),
    decreases samples.len(),
{
    if samples.len() > 0 {
        lemma_total_bounds(samples.drop_last());
        assert(sample_in_range(samples[samples.len() - 1]));
    }
}

fn sum_samples(samples: &Vec<i128>) -> (sum: i128)
    requires
        samples@.len() <= RUN_LIMIT,
        forall|i: int| 0 <= i < samples@.len() ==> sample_in_range(#[trigger] samples@[i]),
    ensures
        sum == total(samples@),
{
    let mut sum: i128 = 0;
    let mut i: usize = 0;
    while i < samples.len()
        invariant
            0 <= i <= samples@.len() <= RUN_LIMIT,
            forall|j: int| 0 <= j < samples@.len() ==> sample_in_range(#[trigger] samples@[j]),
            sum == total(samples@.take(i as int)),
        decreases samples@.len() - i,
    {
        proof {
            lemma_total_bounds(samples@.take(i as int));
            assert(samples@.take(i + 1).drop_last() =~= samples@.take(i as int));
            assert(sample_in_range(samples@[i as int]));
        }
        sum = sum + samples[i];
        i += 1;
    }
    proof {
        assert(samples@.take(i as int) =~= samples@);
    }
    sum
}

/// The subscriber's automaton with the statistics of its run.
pub struct Subscriber {
    latency_enabled: bool,
    phase: Phase,
    stats: RunStatistics,
}

impl View for Subscriber {
    type V = SubscriberView;

    closed spec fn view(&self) -> SubscriberView {
        SubscriberView { latency_enabled: self.latency_enabled, phase: self.phase, stats: self.stats@ }
    }
}

impl Subscriber {
    #[verifier::type_invariant]
    spec fn well_formed(&self) -> bool {
        self@.wf()
    }

    /// A subscriber that awaits the opening of a run.
    pub fn new(latency_enabled: bool) -> (subscriber: Subscriber)
        ensures
            subscriber@ == initial(latency_enabled),
            subscriber@.wf(),
    {
        Subscriber {
            latency_enabled,
            phase: Phase::AwaitingFirst,
            stats: RunStatistics {
                received_count: 0,
                analysis_begin_micros: None,
                analysis_end_micros: None,
                declared_total: None,
                payload_size: None,
                latency_samples: Vec::new(),
            },
        }
    }

    /// Where the subscriber stands.
    pub fn phase(&self) -> (phase: Phase)
        ensures
            phase == self@.phase,
            self@.wf(),
    {
        proof {
            use_type_invariant(self);
        }
        self.phase
    }

    /// Whether latency is measured.
    pub fn latency_enabled(&self) -> (enabled: bool)
        ensures
            enabled == self@.latency_enabled,
    {
        self.latency_enabled
    }

    /// What has been gathered so far.
    pub fn statistics(&self) -> (stats: &RunStatistics)
        ensures
            stats@ == self@.stats,
    {
        &self.stats
    }

    /// What `step` would do with an envelope now.
    pub fn outcome(&self, envelope: &Envelope) -> (outcome: Outcome)
        ensures
            outcome == outcome_of(self@, envelope@),
    {
        match envelope.kind {
            Kind::Startup => Outcome::Warmup,
            Kind::Unrecognized => Outcome::Unrecognized,
            Kind::First => match self.phase {
                Phase::AwaitingFirst => Outcome::Began,
                _ => Outcome::Ignored,
            },
            Kind::Regular => match self.phase {
                Phase::Measuring => if self.stats.received_count < RUN_LIMIT - 1 {
                    Outcome::Counted
                } else {
                    Outcome::Ignored
                },
                _ => Outcome::Ignored,
            },
            Kind::Last => match self.phase {
                Phase::Done => Outcome::Ignored,
                _ => Outcome::Finished,
            },
        }
    }

    /// Processes one envelope received at the local time `now_micros`, and
    /// says what was done with it.
    pub fn step(self, envelope: &Envelope, now_micros: i64) -> (r: (Subscriber, Outcome))
        ensures
            r.1 == outcome_of(self@, envelope@),
            r.0@ == step_view(self@, envelope@, now_micros),
            r.0@.wf(),
    {
        proof {
            use_type_invariant(&self);
        }
        let outcome = self.outcome(envelope);
        let ghost before = self@;
        let Subscriber { latency_enabled, phase, stats } = self;
        let RunStatistics {
            received_count,
            analysis_begin_micros,
            analysis_end_micros,
            declared_total,
            payload_size,
            latency_samples,
        } = stats;
        let mut latency_samples = latency_samples;
        match outcome {
            Outcome::Began => {
                let next = Subscriber {
                    latency_enabled,
                    phase: Phase::Measuring,
                    stats: RunStatistics {
                        received_count: received_count + 1,
                        analysis_begin_micros: Some(now_micros),
                        analysis_end_micros,
                        declared_total,
                        payload_size,
                        latency_samples,
                    },
                };
                (next, outcome)
            },
            Outcome::Counted => {
                if latency_enabled {
                    let latency: i128 = now_micros as i128 - envelope.send_timestamp_micros as i128;
                    latency_samples.push(latency);
                }
                let next = Subscriber {
                    latency_enabled,
                    phase,
                    stats: RunStatistics {
                        received_count: received_count + 1,
                        analysis_begin_micros,
                        analysis_end_micros,
                        declared_total,
                        payload_size,
                        latency_samples,
                    },
                };
                (next, outcome)
            },
            Outcome::Finished => {
                let begin = match phase {
                    Phase::AwaitingFirst => Some(now_micros),
                    _ => analysis_begin_micros,
                };
                let size: usize = envelope.payload.as_str().as_bytes().len();
                let next = Subscriber {
                    latency_enabled,
                    phase: Phase::Done,
                    stats: RunStatistics {
                        received_count: received_count + 1,
                        analysis_begin_micros: begin,
                        analysis_end_micros: Some(now_micros),
                        declared_total: Some(envelope.declared_total),
                        payload_size: Some(size),
                        latency_samples,
                    },
                };
                (next, outcome)
            },
            _ => {
                let next = Subscriber {
                    latency_enabled,
                    phase,
                    stats: RunStatistics {
                        received_count,
                        analysis_begin_micros,
                        analysis_end_micros,
                        declared_total,
                        payload_size,
                        latency_samples,
                    },
                };
                (next, outcome)
            },
        }
    }

    /// Reads one wire text and processes the envelope it holds. The local
    /// time is read from the clock after decoding, and only where the step
    /// records it. A text that cannot be decoded changes nothing. Whatever
    /// the clock gave, the new state is that of `step` at some time.
    pub fn receive(self, text: &str) -> (r: (Subscriber, Result<Receipt, DecodeError>))
        ensures
            r.0@.wf(),
            match r.1 {
                Ok(receipt) => decoded(json_parse(text@)) matches Ok(envelope) && receipt.outcome
                    == outcome_of(self@, envelope) && receipt.sequence_id == envelope.sequence_id
                    && exists|now: i64| r.0@ == #[trigger] step_view(self@, envelope, now),
                Err(error) => decoded(json_parse(text@)) matches Err(e) && e == error && r.0@
                    == self@,
            },
    {
        proof {
            use_type_invariant(&self);
        }
        match decode(text) {
            Err(error) => (self, Err(error)),
            Ok(envelope) => {
                let now: i64 = match self.outcome(&envelope) {
                    Outcome::Began | Outcome::Finished => now_micros(),
                    Outcome::Counted => if self.latency_enabled {
                        now_micros()
                    } else {
                        0
                    },
                    _ => 0,
                };
                let (next, outcome) = self.step(&envelope, now);
                (next, Ok(Receipt { outcome, sequence_id: envelope.sequence_id }))
            },
        }
    }

    /// The figures of the run: `None` until the run is complete.
    pub fn summary(&self) -> (summary: Option<Summary>)
        ensures
            summary == summary_of(self@),
    {
        proof {
            use_type_invariant(self);
        }
        match self.phase {
            Phase::Done => {},
            _ => {
                return None;
            },
        }
        let begin: i64 = match self.stats.analysis_begin_micros {
            Some(t) => t,
            None => {
                return None;
            },
        };
        let end: i64 = match self.stats.analysis_end_micros {
            Some(t) => t,
            None => {
                return None;
            },
        };
        let declared_total: u32 = match self.stats.declared_total {
            Some(n) => n,
            None => {
                return None;
            },
        };
        let payload_size: usize = match self.stats.payload_size {
            Some(n) => n,
            None => {
                return None;
            },
        };
        let received_count = self.stats.received_count;
        let duration_micros: i128 = end as i128 - begin as i128;
        assert(received_count * payload_size <= 0xffff_ffff * 0xffff_ffff_ffff_ffff) by (nonlinear_arith)
            requires
                0 <= received_count <= 0xffff_ffff,
                0 <= payload_size <= 0xffff_ffff_ffff_ffff,
        ;
        let total_bytes: u128 = received_count as u128 * payload_size as u128;
        let (bytes_per_second, messages_per_second) = if duration_micros > 0 {
            let span = duration_micros as u128;
            (Some(total_bytes * 1_000_000 / span), Some(received_count as u128 * 1_000_000 / span))
        } else {
            (None, None)
        };
        let count = self.stats.latency_samples.len();
        let (total_latency_micros, average_latency_micros) = if count > 0 {
            proof {
                lemma_total_bounds(self.stats.latency_samples@);
            }
            let sum = sum_samples(&self.stats.latency_samples);
            (Some(sum), Some(sum / count as i128))
        } else {
            (None, None)
        };
        Some(
            Summary {
                declared_total,
                received_count,
                duration_micros,
                payload_size,
                total_bytes,
                bytes_per_second,
                messages_per_second,
                total_latency_micros,
                average_latency_micros,
            },
        )
    }
}

} // verus!
