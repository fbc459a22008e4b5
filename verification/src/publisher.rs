//! The publisher's side of a run: what is emitted, in which order, after
//! which pause.
//!
//! A run is a warm-up burst followed by the measured run. The publisher
//! here decides each emission; sleeping and sending are the caller's part.

use crate::clock::now_micros;
use crate::envelope::{encode, record_members, EncodeError, Envelope, EnvelopeView, Kind};
use crate::json::json_text;
use crate::text::{filler, zeros};
use vstd::prelude::*;
use vstd::string::*;

verus! {

/// Number of warm-up envelopes sent before the measured run.
pub const STARTUP_COUNT: u32 = 5;

/// Pause before each warm-up envelope, in microseconds.
pub const STARTUP_PAUSE_MICROS: u64 = 100_000;

/// Default pause before each measured envelope, in microseconds (about 60 Hz).
pub const DEFAULT_PERIOD_MICROS: u64 = 16_667;

/// Default payload size in bytes.
pub const DEFAULT_PAYLOAD_SIZE: usize = 5_000;

/// Default length of the measured run.
pub const DEFAULT_MESSAGE_COUNT: u32 = 100;

/// The parameters of one run, fixed for its lifetime.
#[derive(Clone, Copy, Debug, PartialEq, Eq, Structural)]
pub struct RunConfig {
    /// Pause before each measured envelope, in microseconds.
    pub period_micros: u64,
    /// Size of every payload, in bytes.
    pub payload_size: usize,
    /// Length of the measured run.
    pub message_count: u32,
}

impl Default for RunConfig {
    fn default() -> (config: RunConfig)
        ensures
            config.period_micros == DEFAULT_PERIOD_MICROS,
            config.payload_size == DEFAULT_PAYLOAD_SIZE,
            config.message_count == DEFAULT_MESSAGE_COUNT,
    {
        RunConfig {
            period_micros: DEFAULT_PERIOD_MICROS,
            payload_size: DEFAULT_PAYLOAD_SIZE,
            message_count: DEFAULT_MESSAGE_COUNT,
        }
    }
}

/// The kind of the envelope at `position` in a measured run of `total`
/// envelopes. The closing position is `Last`, also in a run of one
/// envelope, so that every run of at least one envelope ends with a `Last`;
/// the opening position of a longer run is `First`.
pub open spec fn kind_at(position: int, total: int) -> Kind {
    if position + 1 == total {
        Kind::Last
    } else if position == 0 {
        Kind::First
    } else {
        Kind::Regular
    }
}

/// Classifies the envelope at `position` in a measured run of `total`.
pub fn classify(position: u32, total: u32) -> (kind: Kind)
    ensures
        kind == kind_at(position as int, total as int),
{
    if total > 0 && position == total - 1 {
        Kind::Last
    } else if position == 0 {
        Kind::First
    } else {
        Kind::Regular
    }
}

/// One decision of the publisher: wait, then send an envelope of this
/// class. The send time and the payload are added when it is sealed.
#[derive(Clone, Copy, Debug, PartialEq, Eq, Structural)]
pub struct Emission {
    /// Pause before the envelope is stamped and sent, in microseconds.
    pub pause_micros: u64,
    pub kind: Kind,
    pub declared_total: u32,
    pub sequence_id: u32,
}

/// The emission at `index` of a run: the warm-up burst first, each of its
/// envelopes numbered within the burst, then the measured run.
pub open spec fn emission_at(config: RunConfig, index: int) -> Emission {
    if index < STARTUP_COUNT {
        Emission {
            pause_micros: STARTUP_PAUSE_MICROS,
            kind: Kind::Startup,
            declared_total: STARTUP_COUNT,
            sequence_id: index as u32,
        }
    } else {
        Emission {
            pause_micros: config.period_micros,
            kind: kind_at(index - STARTUP_COUNT, config.message_count as int),
            declared_total: config.message_count,
            sequence_id: (index - STARTUP_COUNT) as u32,
        }
    }
}

/// Number of emissions of a run.
pub open spec fn plan_len(config: RunConfig) -> nat {
    (STARTUP_COUNT + config.message_count) as nat
}

/// Everything a run emits, in order.
pub open spec fn plan(config: RunConfig) -> Seq<Emission> {
    Seq::new(plan_len(config), |index: int| emission_at(config, index))
}

/// The envelope that an emission becomes at the time `now_micros`: warm-up
/// envelopes carry the time 0, all others the time given.
pub open spec fn sealed(payload: Seq<char>, emission: Emission, now_micros: i64) -> EnvelopeView {
    EnvelopeView {
        kind: emission.kind,
        send_timestamp_micros: if emission.kind == Kind::Startup {
            0
        } else {
            now_micros
        },
        declared_total: emission.declared_total,
        sequence_id: emission.sequence_id,
        payload,
    }
}

/// A publisher in the middle of its run.
pub struct Publisher {
    config: RunConfig,
    payload: String,
    position: u64,
}

impl Publisher {
    /// The parameters of the run.
    pub closed spec fn config(&self) -> RunConfig {
        self.config
    }

    /// How many emissions have been handed out.
    pub closed spec fn position(&self) -> nat {
        self.position as nat
    }

    /// The payload that every envelope of the run carries.
    pub closed spec fn payload(&self) -> Seq<char> {
        self.payload@
    }

    #[verifier::type_invariant]
    spec fn well_formed(&self) -> bool {
        &&& self.position <= STARTUP_COUNT + self.config.message_count
        &&& self.payload@ == zeros(self.config.payload_size as nat)
    }

    /// A publisher at the start of its run, with the run's filler payload.
    pub fn new(config: RunConfig) -> (publisher: Publisher)
        ensures
            publisher.config() == config,
            publisher.position() == 0,
            publisher.payload() == zeros(config.payload_size as nat),
    {
        Publisher { config, payload: filler(config.payload_size), position: 0 }
    }

    /// The next emission of the run, or `None` once the run is complete.
    pub fn next_emission(&mut self) -> (emission: Option<Emission>)
        ensures
            final(self).config() == old(self).config(),
            final(self).payload() == old(self).payload(),
            old(self).position() <= plan_len(old(self).config()),
            match emission {
                Some(e) => old(self).position() < plan_len(old(self).config()) && e == plan(
                    old(self).config(),
                )[old(self).position() as int] && final(self).position() == old(self).position()
                    + 1,
                None => old(self).position() == plan_len(old(self).config())
                    && final(self).position() == old(self).position(),
            },
    {
        proof {
            use_type_invariant(&*self);
        }
        let total = self.config.message_count;
        let startup = STARTUP_COUNT as u64;
        if self.position < startup {
            let sequence_id = self.position as u32;
            self.position = self.position + 1;
            Some(
                Emission {
                    pause_micros: STARTUP_PAUSE_MICROS,
                    kind: Kind::Startup,
                    declared_total: STARTUP_COUNT,
                    sequence_id,
                },
            )
        } else if self.position < startup + total as u64 {
            let sequence_id = (self.position - startup) as u32;
            self.position = self.position + 1;
            Some(
                Emission {
                    pause_micros: self.config.period_micros,
                    kind: classify(sequence_id, total),
                    declared_total: total,
                    sequence_id,
                },
            )
        } else {
            None
        }
    }

    /// Seals an emission at the time `now_micros`: the envelope of its
    /// class and position with the run's payload, stamped 0 on warm-up
    /// traffic and `now_micros` otherwise.
    pub fn seal(&self, emission: &Emission, now_micros: i64) -> (envelope: Envelope)
        ensures
            envelope@ == sealed(self.payload(), *emission, now_micros),
    {
        let send_timestamp_micros = if emission.kind == Kind::Startup {
            0
        } else {
            now_micros
        };
        Envelope {
            kind: emission.kind,
            send_timestamp_micros,
            declared_total: emission.declared_total,
            sequence_id: emission.sequence_id,
            payload: self.payload.clone(),
        }
    }

    /// Stamps an emission with the current time and writes it as wire
    /// text. The clock is read immediately before encoding, and not at all
    /// for warm-up traffic. Whatever the clock gave, the text is the
    /// encoding of the emission sealed at some time.
    pub fn render(&self, emission: &Emission) -> (r: Result<String, EncodeError>)
        ensures
            match r {
                Ok(text) => emission.kind != Kind::Unrecognized && exists|now: i64|
                    json_text(record_members(#[trigger] sealed(self.payload(), *emission, now)))
                        == Some(text@),
                Err(EncodeError::UnrecognizedKind) => emission.kind == Kind::Unrecognized,
                Err(EncodeError::Serializer) => emission.kind != Kind::Unrecognized && exists|
                    now: i64,
                |
                    json_text(record_members(#[trigger] sealed(self.payload(), *emission, now)))
                        is None,
            },
    {
        let now: i64 = if emission.kind == Kind::Startup {
            0
        } else {
            now_micros()
        };
        let envelope = self.seal(emission, now);
        encode(&envelope)
    }
}

} // verus!
