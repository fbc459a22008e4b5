//! What holds of a whole run: of every state that the subscriber reaches,
//! of everything the publisher emits, and of the two together.

use crate::envelope::{EnvelopeView, Kind};
use crate::publisher::{emission_at, plan, plan_len, sealed, RunConfig, STARTUP_COUNT};
use crate::subscriber::{
    initial, latency_of, outcome_of, payload_bytes, regulars_counted, sample_in_range, step_view, summary_of,
    Outcome, Phase, SubscriberView,
};
use crate::text::{lemma_zeros_bytes, zeros};
use vstd::prelude::*;

verus! {

/// One envelope as the subscriber sees it, with its local receive time.
pub ghost struct Arrival {
    pub envelope: EnvelopeView,
    pub received_micros: i64,
}

/// The state after a sequence of arrivals, processed in order.
pub open spec fn run(state: SubscriberView, arrivals: Seq<Arrival>) -> SubscriberView
    decreases arrivals.len(),
{
    if arrivals.len() == 0 {
        state
    } else {
        step_view(
            run(state, arrivals.drop_last()),
            arrivals.last().envelope,
            arrivals.last().received_micros,
        )
    }
}

/// How many of the arrivals the automaton counted as `Regular` envelopes
/// of the measured run.
pub open spec fn regulars_processed(state: SubscriberView, arrivals: Seq<Arrival>) -> nat
    decreases arrivals.len(),
{
    if arrivals.len() == 0 {
        0
    } else {
        let counted: nat = if outcome_of(
            run(state, arrivals.drop_last()),
            arrivals.last().envelope,
        ) == Outcome::Counted {
            1
        } else {
            0
        };
        regulars_processed(state, arrivals.drop_last()) + counted
    }
}

/// A step keeps a well-formed state well formed, whatever the envelope and
/// the time: final statistics are never touched again, and the samples stay
/// as many as the `Regular` envelopes counted.
pub proof fn lemma_step_keeps_wf(state: SubscriberView, envelope: EnvelopeView, now_micros: i64)
    requires
        state.wf(),
    ensures
        step_view(state, envelope, now_micros).wf(),
        state.phase == Phase::Done ==> step_view(state, envelope, now_micros) == state,
{
    let next = step_view(state, envelope, now_micros);
    assert(sample_in_range(latency_of(envelope, now_micros)));
    assert forall|i: int| 0 <= i < next.stats.latency_samples.len() implies sample_in_range(
        #[trigger] next.stats.latency_samples[i],
    ) by {
        if i < state.stats.latency_samples.len() {
            assert(next.stats.latency_samples[i] == state.stats.latency_samples[i]);
        }
    }
}

/// After any sequence of arrivals the subscriber's state is well formed,
/// and the latency samples are as many as the `Regular` envelopes
/// processed when latency is measured, and none when it is not.
pub proof fn lemma_samples_match_regulars(latency_enabled: bool, arrivals: Seq<Arrival>)
    ensures
        run(initial(latency_enabled), arrivals).wf(),
        run(initial(latency_enabled), arrivals).latency_enabled == latency_enabled,
        regulars_counted(run(initial(latency_enabled), arrivals)) == regulars_processed(
            initial(latency_enabled),
            arrivals,
        ),
        run(initial(latency_enabled), arrivals).stats.latency_samples.len() == if latency_enabled {
            regulars_processed(initial(latency_enabled), arrivals)
        } else {
            0
        },
    decreases arrivals.len(),
{
    if arrivals.len() > 0 {
        lemma_samples_match_regulars(latency_enabled, arrivals.drop_last());
        let before = run(initial(latency_enabled), arrivals.drop_last());
        lemma_step_keeps_wf(before, arrivals.last().envelope, arrivals.last().received_micros);
    }
}

/// The measured part of a plan follows the warm-up burst, and its
/// sequence numbers are 0, 1, ... up to the run length, each once and in
/// increasing order; every envelope of it declares the run length.
pub proof fn lemma_plan_sequence(config: RunConfig)
    ensures
        plan(config).len() == STARTUP_COUNT + config.message_count,
        forall|i: int|
            0 <= i < STARTUP_COUNT ==> (#[trigger] plan(config)[i]).kind == Kind::Startup && plan(
                config,
            )[i].sequence_id == i,
        forall|i: int|
            0 <= i < config.message_count ==> (#[trigger] plan(config)[STARTUP_COUNT + i]).kind
                != Kind::Startup && plan(config)[STARTUP_COUNT + i].sequence_id == i && plan(
                config,
            )[STARTUP_COUNT + i].declared_total == config.message_count,
        forall|i: int, j: int|
            0 <= i < j < config.message_count ==> (#[trigger] plan(config)[STARTUP_COUNT
                + i]).sequence_id < (#[trigger] plan(config)[STARTUP_COUNT + j]).sequence_id,
{
}

/// A measured run of two or more envelopes is one `First`, then only
/// `Regular`, then one `Last`. A run of one envelope is a single `Last`.
pub proof fn lemma_plan_kinds(config: RunConfig)
    ensures
        config.message_count >= 2 ==> plan(config)[STARTUP_COUNT as int].kind == Kind::First,
        config.message_count >= 1 ==> plan(config)[STARTUP_COUNT + config.message_count - 1].kind
            == Kind::Last,
        forall|i: int|
            1 <= i < config.message_count - 1 ==> (#[trigger] plan(config)[STARTUP_COUNT + i]).kind
                == Kind::Regular,
        forall|i: int|
            0 <= i < config.message_count - 1 ==> (#[trigger] plan(config)[STARTUP_COUNT + i]).kind
                != Kind::Last,
        forall|i: int|
            1 <= i < config.message_count ==> (#[trigger] plan(config)[STARTUP_COUNT + i]).kind
                != Kind::First,
{
}

/// The arrival at `index` of a run that is delivered whole and in order:
/// the emission sealed at its send time, with its receive time.
pub open spec fn delivery_at(config: RunConfig, sent: Seq<i64>, received: Seq<i64>, index: int) -> Arrival {
    Arrival {
        envelope: sealed(
            zeros(config.payload_size as nat),
            emission_at(config, index),
            sent[index],
        ),
        received_micros: received[index],
    }
}

/// A run delivered whole and in order, for any send and receive times.
pub open spec fn delivery(config: RunConfig, sent: Seq<i64>, received: Seq<i64>) -> Seq<Arrival> {
    Seq::new(plan_len(config), |index: int| delivery_at(config, sent, received, index))
}

/// Every envelope of a delivered run carries the same payload, of the
/// configured size in bytes.
pub proof fn lemma_delivery_payloads(config: RunConfig, sent: Seq<i64>, received: Seq<i64>)
    ensures
        delivery(config, sent, received).len() == plan_len(config),
        forall|index: int|
            0 <= index < plan_len(config) ==> (#[trigger] delivery(
                config,
                sent,
                received,
            )[index]).envelope.payload == zeros(config.payload_size as nat),
        payload_bytes(zeros(config.payload_size as nat)) == config.payload_size,
{
    lemma_zeros_bytes(config.payload_size as nat);
}

/// Where the subscriber stands after the first `done` arrivals of a
/// delivered run.
pub open spec fn on_course(
    state: SubscriberView,
    config: RunConfig,
    received: Seq<i64>,
    done: int,
) -> bool {
    let measured = done - STARTUP_COUNT;
    &&& state.wf()
    &&& measured <= 0 ==> state.phase == Phase::AwaitingFirst
    &&& 0 < measured < config.message_count ==> {
        &&& state.phase == Phase::Measuring
        &&& state.stats.received_count == measured
        &&& state.stats.analysis_begin_micros == Some(received[STARTUP_COUNT as int])
    }
    &&& measured == config.message_count && measured > 0 ==> {
        &&& state.phase == Phase::Done
        &&& state.stats.received_count == config.message_count
        &&& state.stats.analysis_begin_micros == Some(received[STARTUP_COUNT as int])
        &&& state.stats.analysis_end_micros == Some(received[done - 1])
        &&& state.stats.declared_total == Some(config.message_count)
        &&& state.stats.payload_size == Some(config.payload_size)
    }
}

proof fn lemma_delivery_prefix(
    latency_enabled: bool,
    config: RunConfig,
    sent: Seq<i64>,
    received: Seq<i64>,
    done: int,
)
    requires
        0 <= done <= plan_len(config),
    ensures
        on_course(
            run(initial(latency_enabled), delivery(config, sent, received).take(done)),
            config,
            received,
            done,
        ),
        run(initial(latency_enabled), delivery(config, sent, received).take(done)).latency_enabled
            == latency_enabled,
    decreases done,
{
    let all = delivery(config, sent, received);
    if done > 0 {
        lemma_delivery_prefix(latency_enabled, config, sent, received, done - 1);
        assert(all.take(done).drop_last() =~= all.take(done - 1));
        assert(all.take(done).last() == delivery_at(config, sent, received, done - 1));
        let before = run(initial(latency_enabled), all.take(done - 1));
        let arrival = delivery_at(config, sent, received, done - 1);
        lemma_step_keeps_wf(before, arrival.envelope, arrival.received_micros);
        lemma_zeros_bytes(config.payload_size as nat);
        assert(arrival.envelope.kind == emission_at(config, done - 1).kind);
    }
}

/// A run of at least one envelope that is delivered whole and in order
/// brings the subscriber to `Done`, whatever the send and receive times.
/// It has then counted exactly the declared number of envelopes, from the
/// receipt of the first measured envelope to the receipt of the last; the
/// captured payload size is the configured one; the samples are as many as
/// the `Regular` envelopes of the run when latency is measured and none
/// when it is not; and the total is count times payload size.
pub proof fn lemma_delivered_run_completes(
    latency_enabled: bool,
    config: RunConfig,
    sent: Seq<i64>,
    received: Seq<i64>,
)
    requires
        config.message_count >= 1,
    ensures
        ({
            let end = run(initial(latency_enabled), delivery(config, sent, received));
            &&& end.wf()
            &&& end.phase == Phase::Done
            &&& end.stats.received_count == config.message_count
            &&& end.stats.declared_total == Some(config.message_count)
            &&& end.stats.payload_size == Some(config.payload_size)
            &&& end.stats.analysis_begin_micros == Some(received[STARTUP_COUNT as int])
            &&& end.stats.analysis_end_micros == Some(
                received[STARTUP_COUNT + config.message_count - 1],
            )
            &&& end.stats.latency_samples.len() == if latency_enabled && config.message_count >= 2 {
                config.message_count - 2
            } else {
                0
            }
            &&& summary_of(end) matches Some(summary) && summary.total_bytes
                == config.message_count * config.payload_size
        }),
{
    let all = delivery(config, sent, received);
    lemma_delivery_prefix(latency_enabled, config, sent, received, all.len() as int);
    assert(all.take(all.len() as int) =~= all);
    let end = run(initial(latency_enabled), all);
    lemma_summary_total_bytes(end);
}

/// The total of a completed run is exactly the number of envelopes
/// received times the payload size.
pub proof fn lemma_summary_total_bytes(state: SubscriberView)
    requires
        state.wf(),
        state.phase == Phase::Done,
    ensures
        summary_of(state) matches Some(summary) && summary.total_bytes == summary.received_count
            * summary.payload_size && summary.received_count == state.stats.received_count
            && Some(summary.payload_size) == state.stats.payload_size,
{
    let count = state.stats.received_count;
    let size = state.stats.payload_size.unwrap();
    assert(0 <= count * size <= 0xffff_ffff * 0xffff_ffff_ffff_ffff) by (nonlinear_arith)
        requires
            0 <= count <= 0xffff_ffff,
            0 <= size <= 0xffff_ffff_ffff_ffff,
    ;
}

/// A completed run whose two ends were received at the same time, or with
/// the clock set back in between, has a summary whose two rates are
/// undefined; with a positive duration both rates are defined.
pub proof fn lemma_rates_defined(state: SubscriberView)
    requires
        state.wf(),
        state.phase == Phase::Done,
    ensures
        summary_of(state) matches Some(summary) && (summary.bytes_per_second is Some
            <==> summary.duration_micros > 0) && (summary.messages_per_second is Some
            <==> summary.duration_micros > 0) && summary.duration_micros
            == state.stats.analysis_end_micros.unwrap() - state.stats.analysis_begin_micros.unwrap(),
{
}

/// Pacing: where the envelopes of a run of two or more are received exactly
/// one period apart, the duration is the period times the number of
/// intervals, and the message rate is the whole part of the run length per
/// that duration, in messages per second.
pub proof fn lemma_paced_rate(
    latency_enabled: bool,
    config: RunConfig,
    sent: Seq<i64>,
    received: Seq<i64>,
)
    requires
        config.message_count >= 2,
        config.period_micros > 0,
        received[STARTUP_COUNT + config.message_count - 1] == received[STARTUP_COUNT as int] + (
        config.message_count - 1) * config.period_micros,
    ensures
        ({
            let end = run(initial(latency_enabled), delivery(config, sent, received));
            let intervals = config.message_count - 1;
            &&& summary_of(end) matches Some(summary) && summary.duration_micros == intervals
                * config.period_micros && summary.messages_per_second == Some(
                ((config.message_count * 1_000_000) / (intervals * config.period_micros)) as u128,
            )
        }),
{
    lemma_delivered_run_completes(latency_enabled, config, sent, received);
    let end = run(initial(latency_enabled), delivery(config, sent, received));
    lemma_rates_defined(end);
    let intervals = config.message_count - 1;
    assert(intervals * config.period_micros > 0) by (nonlinear_arith)
        requires
            intervals >= 1,
            config.period_micros > 0,
    ;
}

/// A run of a single envelope does not leave the subscriber waiting: the
/// one envelope is a `Last`, which opens and closes the run at once, so
/// that the duration is zero and the rates are undefined.
pub proof fn lemma_single_envelope_run(
    latency_enabled: bool,
    config: RunConfig,
    sent: Seq<i64>,
    received: Seq<i64>,
)
    requires
        config.message_count == 1,
    ensures
        plan(config)[STARTUP_COUNT as int].kind == Kind::Last,
        ({
            let end = run(initial(latency_enabled), delivery(config, sent, received));
            &&& end.phase == Phase::Done
            &&& end.stats.received_count == 1
            &&& summary_of(end) matches Some(summary) && summary.duration_micros == 0
                && summary.bytes_per_second is None && summary.messages_per_second is None
        }),
{
    lemma_delivered_run_completes(latency_enabled, config, sent, received);
    let end = run(initial(latency_enabled), delivery(config, sent, received));
    lemma_rates_defined(end);
}

} // verus!
