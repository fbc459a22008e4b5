use pubsub_bench::envelope::{encode, DecodeError, Envelope, Kind};
use pubsub_bench::publisher::{Publisher, RunConfig};
use pubsub_bench::subscriber::{Outcome, Phase, Receipt, RunStatistics, Subscriber, Summary, RUN_LIMIT};

fn envelope(kind: Kind, stamp: i64, total: u32, id: u32, payload: &str) -> Envelope {
    Envelope {
        kind,
        send_timestamp_micros: stamp,
        declared_total: total,
        sequence_id: id,
        payload: payload.to_string(),
    }
}

fn empty_statistics() -> RunStatistics {
    RunStatistics {
        received_count: 0,
        analysis_begin_micros: None,
        analysis_end_micros: None,
        declared_total: None,
        payload_size: None,
        latency_samples: vec![],
    }
}

/// Feeds the envelopes in order, each with its receive time.
fn feed(subscriber: Subscriber, arrivals: &[(Envelope, i64)]) -> (Subscriber, Vec<Outcome>) {
    let mut subscriber = subscriber;
    let mut outcomes = Vec::new();
    for (envelope, at) in arrivals {
        let (next, outcome) = subscriber.step(envelope, *at);
        subscriber = next;
        outcomes.push(outcome);
    }
    (subscriber, outcomes)
}

#[test]
fn a_new_subscriber_awaits_the_first_envelope() {
    for enabled in [false, true] {
        let subscriber = Subscriber::new(enabled);
        assert_eq!(subscriber.phase(), Phase::AwaitingFirst);
        assert_eq!(subscriber.latency_enabled(), enabled);
        assert_eq!(*subscriber.statistics(), empty_statistics());
        assert_eq!(subscriber.summary(), None);
    }
    assert_eq!(RUN_LIMIT, u32::MAX);
}

#[test]
fn warm_up_changes_nothing_in_any_phase() {
    let warm = envelope(Kind::Startup, 0, 5, 2, "00");
    let (s, outcome) = Subscriber::new(true).step(&warm, 10);
    assert_eq!(outcome, Outcome::Warmup);
    assert_eq!(s.phase(), Phase::AwaitingFirst);
    assert_eq!(*s.statistics(), empty_statistics());

    let (s, _) = s.step(&envelope(Kind::First, 1, 3, 0, "00"), 20);
    let (s, outcome) = s.step(&warm, 30);
    assert_eq!(outcome, Outcome::Warmup);
    assert_eq!(s.phase(), Phase::Measuring);
    assert_eq!(s.statistics().received_count, 1);

    let (s, _) = s.step(&envelope(Kind::Last, 1, 3, 2, "00"), 40);
    let before = s.summary();
    let (s, outcome) = s.step(&warm, 50);
    assert_eq!(outcome, Outcome::Warmup);
    assert_eq!(s.phase(), Phase::Done);
    assert_eq!(s.summary(), before);
}

#[test]
fn unrecognized_kinds_change_nothing() {
    let odd = envelope(Kind::Unrecognized, 9, 9, 9, "0");
    let (s, outcome) = Subscriber::new(true).step(&odd, 10);
    assert_eq!(outcome, Outcome::Unrecognized);
    assert_eq!(s.phase(), Phase::AwaitingFirst);
    assert_eq!(*s.statistics(), empty_statistics());

    let (s, _) = s.step(&envelope(Kind::First, 1, 3, 0, "00"), 20);
    let (s, outcome) = s.step(&odd, 30);
    assert_eq!(outcome, Outcome::Unrecognized);
    assert_eq!(s.phase(), Phase::Measuring);
    assert_eq!(s.statistics().received_count, 1);
    assert_eq!(s.statistics().latency_samples, Vec::<i128>::new());
}

#[test]
fn first_opens_the_run_at_the_receive_time() {
    let (s, outcome) = Subscriber::new(false).step(&envelope(Kind::First, 111, 3, 0, "00"), 1_000);
    assert_eq!(outcome, Outcome::Began);
    assert_eq!(s.phase(), Phase::Measuring);
    assert_eq!(
        *s.statistics(),
        RunStatistics {
            received_count: 1,
            analysis_begin_micros: Some(1_000),
            analysis_end_micros: None,
            declared_total: None,
            payload_size: None,
            latency_samples: vec![],
        }
    );
    assert_eq!(s.summary(), None);
}

#[test]
fn regular_is_counted_and_sampled() {
    let (s, _) = Subscriber::new(true).step(&envelope(Kind::First, 111, 4, 0, "00"), 1_000);
    let (s, outcome) = s.step(&envelope(Kind::Regular, 1_500, 4, 1, "00"), 2_000);
    assert_eq!(outcome, Outcome::Counted);
    let (s, outcome) = s.step(&envelope(Kind::Regular, 3_100, 4, 2, "00"), 3_000);
    assert_eq!(outcome, Outcome::Counted);
    assert_eq!(s.phase(), Phase::Measuring);
    assert_eq!(
        *s.statistics(),
        RunStatistics {
            received_count: 3,
            analysis_begin_micros: Some(1_000),
            analysis_end_micros: None,
            declared_total: None,
            payload_size: None,
            latency_samples: vec![500, -100],
        }
    );
}

#[test]
fn regular_is_counted_but_not_sampled_when_latency_is_off() {
    let (s, _) = Subscriber::new(false).step(&envelope(Kind::First, 111, 4, 0, "00"), 1_000);
    let (s, outcome) = s.step(&envelope(Kind::Regular, 1_500, 4, 1, "00"), 2_000);
    assert_eq!(outcome, Outcome::Counted);
    assert_eq!(s.statistics().received_count, 2);
    assert_eq!(s.statistics().latency_samples, Vec::<i128>::new());
}

#[test]
fn latency_is_exact_at_the_ends_of_the_range() {
    let (s, _) = Subscriber::new(true).step(&envelope(Kind::First, 0, 4, 0, ""), 0);
    let (s, _) = s.step(&envelope(Kind::Regular, i64::MIN, 4, 1, ""), i64::MAX);
    let (s, _) = s.step(&envelope(Kind::Regular, i64::MAX, 4, 2, ""), i64::MIN);
    assert_eq!(
        s.statistics().latency_samples,
        vec![18_446_744_073_709_551_615_i128, -18_446_744_073_709_551_615_i128]
    );
}

#[test]
fn last_closes_the_run_and_captures_its_fields() {
    let (s, _) = Subscriber::new(true).step(&envelope(Kind::First, 111, 3, 0, "00000"), 1_000);
    let (s, _) = s.step(&envelope(Kind::Regular, 1_990, 3, 1, "00000"), 2_000);
    let (s, outcome) = s.step(&envelope(Kind::Last, 2_990, 3, 2, "00000"), 3_000);
    assert_eq!(outcome, Outcome::Finished);
    assert_eq!(s.phase(), Phase::Done);
    assert_eq!(
        *s.statistics(),
        RunStatistics {
            received_count: 3,
            analysis_begin_micros: Some(1_000),
            analysis_end_micros: Some(3_000),
            declared_total: Some(3),
            payload_size: Some(5),
            latency_samples: vec![10],
        }
    );
}

#[test]
fn payload_size_is_counted_in_bytes() {
    let (s, _) = Subscriber::new(false).step(&envelope(Kind::First, 0, 2, 0, "é漢"), 1);
    let (s, _) = s.step(&envelope(Kind::Last, 0, 2, 1, "é漢"), 2);
    assert_eq!(s.statistics().payload_size, Some(5));
}

#[test]
fn envelopes_out_of_place_are_ignored() {
    // A Regular before the run is open.
    let (s, outcome) = Subscriber::new(true).step(&envelope(Kind::Regular, 1, 3, 1, "0"), 10);
    assert_eq!(outcome, Outcome::Ignored);
    assert_eq!(s.phase(), Phase::AwaitingFirst);
    assert_eq!(*s.statistics(), empty_statistics());

    // A second First inside the run.
    let (s, _) = s.step(&envelope(Kind::First, 1, 3, 0, "0"), 20);
    let inside = RunStatistics {
        received_count: 1,
        analysis_begin_micros: Some(20),
        analysis_end_micros: None,
        declared_total: None,
        payload_size: None,
        latency_samples: vec![],
    };
    let (s, outcome) = s.step(&envelope(Kind::First, 1, 3, 0, "0"), 30);
    assert_eq!(outcome, Outcome::Ignored);
    assert_eq!(s.phase(), Phase::Measuring);
    assert_eq!(*s.statistics(), inside);
}

#[test]
fn a_completed_run_is_never_touched_again() {
    let (s, _) = Subscriber::new(true).step(&envelope(Kind::First, 1, 3, 0, "00"), 100);
    let (s, _) = s.step(&envelope(Kind::Regular, 150, 3, 1, "00"), 200);
    let (s, _) = s.step(&envelope(Kind::Last, 250, 3, 2, "00"), 300);
    let summary = s.summary();
    assert!(summary.is_some());
    let mut s = s;
    for kind in [Kind::First, Kind::Regular, Kind::Last] {
        let (next, outcome) = s.step(&envelope(kind, 1, 9, 9, "000000"), 999);
        assert_eq!(outcome, Outcome::Ignored);
        assert_eq!(next.phase(), Phase::Done);
        assert_eq!(next.summary(), summary);
        assert_eq!(next.statistics().latency_samples, vec![50]);
        s = next;
    }
}

#[test]
fn summary_of_a_short_run() {
    let payload = "0".repeat(5_000);
    let arrivals = vec![
        (envelope(Kind::First, 999_000, 3, 0, &payload), 1_000_000),
        (envelope(Kind::Regular, 1_016_000, 3, 1, &payload), 1_016_667),
        (envelope(Kind::Last, 1_033_000, 3, 2, &payload), 1_033_334),
    ];
    let (s, outcomes) = feed(Subscriber::new(true), &arrivals);
    assert_eq!(outcomes, vec![Outcome::Began, Outcome::Counted, Outcome::Finished]);
    assert_eq!(
        s.summary(),
        Some(Summary {
            declared_total: 3,
            received_count: 3,
            duration_micros: 33_334,
            payload_size: 5_000,
            total_bytes: 15_000,
            bytes_per_second: Some(449_991),
            messages_per_second: Some(89),
            total_latency_micros: Some(667),
            average_latency_micros: Some(667),
        })
    );
}

#[test]
fn average_latency_rounds_toward_zero() {
    let arrivals = vec![
        (envelope(Kind::First, 0, 4, 0, "0"), 100),
        (envelope(Kind::Regular, 203, 4, 1, "0"), 200),
        (envelope(Kind::Regular, 304, 4, 2, "0"), 300),
        (envelope(Kind::Last, 0, 4, 3, "0"), 400),
    ];
    let (s, _) = feed(Subscriber::new(true), &arrivals);
    let summary = s.summary().unwrap();
    assert_eq!(summary.total_latency_micros, Some(-7));
    assert_eq!(summary.average_latency_micros, Some(-3));

    let arrivals = vec![
        (envelope(Kind::First, 0, 4, 0, "0"), 100),
        (envelope(Kind::Regular, 197, 4, 1, "0"), 200),
        (envelope(Kind::Regular, 296, 4, 2, "0"), 300),
        (envelope(Kind::Last, 0, 4, 3, "0"), 400),
    ];
    let (s, _) = feed(Subscriber::new(true), &arrivals);
    let summary = s.summary().unwrap();
    assert_eq!(summary.total_latency_micros, Some(7));
    assert_eq!(summary.average_latency_micros, Some(3));
}

#[test]
fn latency_figures_are_absent_without_samples() {
    let arrivals = vec![
        (envelope(Kind::First, 0, 2, 0, "0"), 100),
        (envelope(Kind::Last, 0, 2, 1, "0"), 400),
    ];
    let (s, _) = feed(Subscriber::new(true), &arrivals);
    let summary = s.summary().unwrap();
    assert_eq!(summary.received_count, 2);
    assert_eq!(summary.total_latency_micros, None);
    assert_eq!(summary.average_latency_micros, None);

    let arrivals = vec![
        (envelope(Kind::First, 0, 3, 0, "0"), 100),
        (envelope(Kind::Regular, 0, 3, 1, "0"), 200),
        (envelope(Kind::Last, 0, 3, 2, "0"), 400),
    ];
    let (s, _) = feed(Subscriber::new(false), &arrivals);
    let summary = s.summary().unwrap();
    assert_eq!(summary.received_count, 3);
    assert_eq!(summary.total_latency_micros, None);
    assert_eq!(summary.average_latency_micros, None);
}

#[test]
fn zero_duration_has_no_rates() {
    let arrivals = vec![
        (envelope(Kind::First, 0, 2, 0, "0000"), 5_000),
        (envelope(Kind::Last, 0, 2, 1, "0000"), 5_000),
    ];
    let (s, _) = feed(Subscriber::new(false), &arrivals);
    assert_eq!(
        s.summary(),
        Some(Summary {
            declared_total: 2,
            received_count: 2,
            duration_micros: 0,
            payload_size: 4,
            total_bytes: 8,
            bytes_per_second: None,
            messages_per_second: None,
            total_latency_micros: None,
            average_latency_micros: None,
        })
    );
}

#[test]
fn negative_duration_has_no_rates() {
    let arrivals = vec![
        (envelope(Kind::First, 0, 2, 0, "0000"), 5_000),
        (envelope(Kind::Last, 0, 2, 1, "0000"), 4_000),
    ];
    let (s, _) = feed(Subscriber::new(false), &arrivals);
    let summary = s.summary().unwrap();
    assert_eq!(summary.duration_micros, -1_000);
    assert_eq!(summary.total_bytes, 8);
    assert_eq!(summary.bytes_per_second, None);
    assert_eq!(summary.messages_per_second, None);
}

#[test]
fn duration_is_exact_at_the_ends_of_the_range() {
    let arrivals = vec![
        (envelope(Kind::First, 0, 2, 0, ""), i64::MIN),
        (envelope(Kind::Last, 0, 2, 1, ""), i64::MAX),
    ];
    let (s, _) = feed(Subscriber::new(false), &arrivals);
    let summary = s.summary().unwrap();
    assert_eq!(summary.duration_micros, 18_446_744_073_709_551_615_i128);
    assert_eq!(summary.total_bytes, 0);
    assert_eq!(summary.bytes_per_second, Some(0));
    assert_eq!(summary.messages_per_second, Some(0));
}

#[test]
fn a_run_of_one_envelope_completes() {
    let (s, outcome) =
        Subscriber::new(true).step(&envelope(Kind::Last, 6_900, 1, 0, "000"), 7_000);
    assert_eq!(outcome, Outcome::Finished);
    assert_eq!(s.phase(), Phase::Done);
    assert_eq!(
        s.summary(),
        Some(Summary {
            declared_total: 1,
            received_count: 1,
            duration_micros: 0,
            payload_size: 3,
            total_bytes: 3,
            bytes_per_second: None,
            messages_per_second: None,
            total_latency_micros: None,
            average_latency_micros: None,
        })
    );
}

#[test]
fn a_published_run_of_one_does_not_leave_the_subscriber_waiting() {
    let mut publisher = Publisher::new(RunConfig { period_micros: 1, payload_size: 2, message_count: 1 });
    let mut subscriber = Subscriber::new(true);
    let mut outcomes = Vec::new();
    while let Some(emission) = publisher.next_emission() {
        let text = publisher.render(&emission).unwrap();
        let (next, receipt) = subscriber.receive(&text);
        subscriber = next;
        outcomes.push(receipt.unwrap().outcome);
    }
    assert_eq!(
        outcomes,
        vec![
            Outcome::Warmup,
            Outcome::Warmup,
            Outcome::Warmup,
            Outcome::Warmup,
            Outcome::Warmup,
            Outcome::Finished
        ]
    );
    let summary = subscriber.summary().unwrap();
    assert_eq!(summary.received_count, 1);
    assert_eq!(summary.declared_total, 1);
    assert_eq!(summary.duration_micros, 0);
    assert_eq!(summary.messages_per_second, None);
}

#[test]
fn the_default_run_end_to_end() {
    let mut publisher =
        Publisher::new(RunConfig { period_micros: 16_667, payload_size: 5_000, message_count: 100 });
    let mut subscriber = Subscriber::new(true);
    let mut receipts = Vec::new();
    while let Some(emission) = publisher.next_emission() {
        let text = publisher.render(&emission).unwrap();
        let (next, receipt) = subscriber.receive(&text);
        subscriber = next;
        receipts.push(receipt.unwrap());
    }
    assert_eq!(receipts.len(), 105);
    for (index, receipt) in receipts.iter().enumerate() {
        let expected = if index < 5 {
            Receipt { outcome: Outcome::Warmup, sequence_id: index as u32 }
        } else if index == 5 {
            Receipt { outcome: Outcome::Began, sequence_id: 0 }
        } else if index < 104 {
            Receipt { outcome: Outcome::Counted, sequence_id: index as u32 - 5 }
        } else {
            Receipt { outcome: Outcome::Finished, sequence_id: 99 }
        };
        assert_eq!(*receipt, expected);
    }
    assert_eq!(subscriber.phase(), Phase::Done);
    assert_eq!(subscriber.statistics().latency_samples.len(), 98);
    let summary = subscriber.summary().unwrap();
    assert_eq!(summary.declared_total, 100);
    assert_eq!(summary.received_count, 100);
    assert_eq!(summary.payload_size, 5_000);
    assert_eq!(summary.total_bytes, 500_000);
    assert!(summary.duration_micros >= 0);
    assert!(summary.total_latency_micros.is_some());
}

#[test]
fn latency_off_leaves_the_samples_empty_end_to_end() {
    let mut publisher =
        Publisher::new(RunConfig { period_micros: 1, payload_size: 10, message_count: 50 });
    let mut subscriber = Subscriber::new(false);
    while let Some(emission) = publisher.next_emission() {
        let text = publisher.render(&emission).unwrap();
        let (next, receipt) = subscriber.receive(&text);
        subscriber = next;
        assert!(receipt.is_ok());
    }
    assert_eq!(subscriber.phase(), Phase::Done);
    assert_eq!(subscriber.statistics().received_count, 50);
    assert_eq!(subscriber.statistics().latency_samples, Vec::<i128>::new());
    assert_eq!(subscriber.summary().unwrap().total_bytes, 500);
    assert_eq!(subscriber.summary().unwrap().average_latency_micros, None);
}

#[test]
fn exact_pacing_gives_the_paced_rate() {
    let mut publisher =
        Publisher::new(RunConfig { period_micros: 16_667, payload_size: 5_000, message_count: 100 });
    let mut subscriber = Subscriber::new(true);
    let mut clock: i64 = 1_700_000_000_000_000;
    while let Some(emission) = publisher.next_emission() {
        clock += emission.pause_micros as i64;
        let sealed = publisher.seal(&emission, clock - 250);
        let (next, _) = subscriber.step(&sealed, clock);
        subscriber = next;
    }
    let summary = subscriber.summary().unwrap();
    assert_eq!(summary.duration_micros, 1_650_033);
    assert_eq!(summary.messages_per_second, Some(60));
    assert_eq!(summary.bytes_per_second, Some(303_024));
    assert_eq!(summary.total_latency_micros, Some(98 * 250));
    assert_eq!(summary.average_latency_micros, Some(250));
    // One message per period is 1e6 / 16667, about 59.99 per second; a run
    // of 100 over 99 periods is within one message per second of it.
    let paced = 1_000_000.0_f64 / 16_667.0;
    let measured = 100.0_f64 / (summary.duration_micros as f64 / 1_000_000.0);
    assert!((measured - paced).abs() < 1.0);
}

#[test]
fn receive_leaves_the_state_alone_on_a_bad_text() {
    let first = encode(&envelope(Kind::First, 5, 3, 0, "00")).unwrap();
    let (s, receipt) = Subscriber::new(true).receive(&first);
    assert_eq!(receipt, Ok(Receipt { outcome: Outcome::Began, sequence_id: 0 }));
    let begin = s.statistics().analysis_begin_micros;
    assert!(begin.is_some());

    let (s, receipt) = s.receive("{\"message_type\":\"regular\",\"timestamp_mi");
    assert_eq!(receipt, Err(DecodeError::Malformed));
    assert_eq!(s.phase(), Phase::Measuring);
    assert_eq!(s.statistics().received_count, 1);
    assert_eq!(s.statistics().analysis_begin_micros, begin);

    let (s, receipt) = s.receive("{\"message_type\":\"regular\"}");
    assert_eq!(receipt, Err(DecodeError::TimestampMicros));
    assert_eq!(s.statistics().received_count, 1);

    let odd = "{\"message_type\":\"ping\",\"timestamp_micros\":1,\"number_of_messages\":3,\"id\":8,\"content\":\"\"}";
    let (s, receipt) = s.receive(odd);
    assert_eq!(receipt, Ok(Receipt { outcome: Outcome::Unrecognized, sequence_id: 8 }));
    assert_eq!(s.statistics().received_count, 1);
}

#[test]
fn receive_stamps_with_the_local_clock() {
    let first = encode(&envelope(Kind::First, 5, 3, 0, "00")).unwrap();
    let regular = encode(&envelope(Kind::Regular, 0, 3, 1, "00")).unwrap();
    let last = encode(&envelope(Kind::Last, 5, 3, 2, "00")).unwrap();
    let (s, _) = Subscriber::new(true).receive(&first);
    let (s, _) = s.receive(&regular);
    let (s, receipt) = s.receive(&last);
    assert_eq!(receipt, Ok(Receipt { outcome: Outcome::Finished, sequence_id: 2 }));
    let stats = s.statistics();
    // Any clock of this century reads far above the start of 2020.
    assert!(stats.analysis_begin_micros.unwrap() > 1_577_836_800_000_000);
    assert!(stats.analysis_end_micros.unwrap() > 1_577_836_800_000_000);
    assert_eq!(stats.latency_samples.len(), 1);
    assert!(stats.latency_samples[0] > 1_577_836_800_000_000);
    assert_eq!(stats.declared_total, Some(3));
    assert_eq!(stats.payload_size, Some(2));
}

#[test]
fn main_test_benchmark_logic() {
    let socket_location = "/tmp/zmqpub0.sock".to_string();
    let enable_latency_measurement = true;

    assert_eq!(pubsub_bench::text::endpoint_uri(&socket_location), "ipc:///tmp/zmqpub0.sock");
    let mut publisher = Publisher::new(RunConfig::default());
    let mut subscriber = Subscriber::new(enable_latency_measurement);
    let mut result = Ok(());
    while let Some(emission) = publisher.next_emission() {
        let text = publisher.render(&emission).unwrap();
        let (next, receipt) = subscriber.receive(&text);
        subscriber = next;
        if let Err(error) = receipt {
            result = Err(error);
            break;
        }
    }
    assert!(result.is_ok());
    assert!(subscriber.summary().is_some());
}
