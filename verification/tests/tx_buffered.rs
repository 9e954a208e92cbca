use h3_stream_repro::text::decimal;
use h3_stream_repro::tx_buffered::{
    algorithms, announce, congestion_window, get_send_capacity, report_verdict, Action, Event, Run,
    Settings, TxBufferTrackingState, SCRIPT_LEN,
};

fn events(state: TxBufferTrackingState, can_send: usize) -> Vec<Event> {
    vec![
        Event::Done,
        Event::Accepted(None),
        Event::Done,
        Event::Done,
        Event::Done,
        Event::Done,
        Event::Done,
        Event::Done,
        Event::Done,
        Event::Done,
        Event::Accepted(Some(13500)),
        Event::Window(Some(13500)),
        Event::Accepted(Some(0)),
        Event::Packets(12),
        Event::Done,
        Event::Packets(1),
        Event::Done,
        Event::Done,
        Event::Done,
        Event::Tracking(state),
        Event::Accepted(Some(can_send)),
        Event::Accepted(Some(777)),
    ]
}

fn script() -> Vec<Action> {
    vec![
        Action::Connect,
        Action::ProbeCapacity { stream_id: 12, len: 100000 },
        Action::ClientSend { stream_id: 0, request: "GET /video1", fin: true },
        Action::ClientSend { stream_id: 4, request: "GET /video2", fin: false },
        Action::ClientSend { stream_id: 8, request: "GET /video3", fin: true },
        Action::Advance,
        Action::ServerRecv { stream_id: 0, max_len: 1024 },
        Action::ServerRecv { stream_id: 4, max_len: 1024 },
        Action::ServerRecv { stream_id: 8, max_len: 1024 },
        Action::Advance,
        Action::ServerSend { stream_id: 4, len: 50000, fin: false },
        Action::ReadCongestionWindow,
        Action::ProbeCapacity { stream_id: 12, len: 100000 },
        Action::EmitServerFlight,
        Action::StopReading { stream_id: 4, error_code: 42 },
        Action::EmitClientFlight,
        Action::DeliverToServer,
        Action::DeliverToClient,
        Action::Advance,
        Action::ReadTrackingState,
        Action::ServerSend { stream_id: 8, len: 50000, fin: false },
        Action::ProbeCapacity { stream_id: 12, len: 100000 },
    ]
}

fn play(events: &[Event]) -> (Vec<Action>, Vec<String>, Run) {
    let mut run = Run::new();
    let mut actions = Vec::new();
    let mut log = Vec::new();
    for event in events {
        actions.push(run.next().unwrap());
        assert!(run.accepts(*event));
        log.extend(run.record(*event));
    }
    (actions, log, run)
}

fn steps_said() -> Vec<&'static str> {
    vec![
        "1. Connection established",
        "   Initial send capacity: 0 bytes",
        "2. Client sent requests on streams 0, 4, 8",
        "3. Server received requests",
        "4. Server queued 13500 bytes on stream 4",
        "   Congestion window (cwnd): 13500",
        "   Send capacity after queue: 0 bytes",
        "5. Server emitted 12 packets (bytes now in flight)",
        "6. Client cancelled stream 4 (sent STOP_SENDING)",
        "   Client emitted 1 packets with STOP_SENDING",
        "7. Server received STOP_SENDING, stream 4 removed",
        "8. Client received server data, will send ACKs",
        "9. Connection advanced (ACKs processed)",
        "\n--- RESULTS ---",
    ]
}

#[test]
fn a_consistent_run_ends_in_success() {
    let (actions, log, run) = play(&events(TxBufferTrackingState::Consistent, 27000));
    assert_eq!(actions, script());
    assert_eq!(actions.len(), SCRIPT_LEN);
    assert_eq!(run.next(), None);
    let mut expected = steps_said();
    expected.extend(vec![
        "tx_buffered_state: Ok",
        "Bytes sendable on stream 8: 27000",
        "Final send capacity: 777 bytes",
        "\n✓ SUCCESS: tx_buffered_state is Ok",
        "  The fix (aea75924) is working correctly.",
        "  Send capacity is properly restored after stream cancellation.",
        "  Server can send 27000 bytes on stream 8.",
    ]);
    assert_eq!(log, expected);
}

#[test]
fn an_inconsistent_run_ends_in_failure() {
    let (actions, log, run) = play(&events(TxBufferTrackingState::Inconsistent, 9));
    assert_eq!(actions, script());
    assert_eq!(run.next(), None);
    let mut expected = steps_said();
    expected.extend(vec![
        "tx_buffered_state: Inconsistent",
        "Bytes sendable on stream 8: 9",
        "Final send capacity: 777 bytes",
        "\n✗ FAILURE: tx_buffered_state is Inconsistent",
        "  This indicates the bug is present.",
        "  The server incorrectly thinks its send buffer is still full.",
        "  Send capacity is only 9 bytes (should be near cwnd: 13500).",
    ]);
    assert_eq!(log, expected);
}

#[test]
fn success_without_room_does_not_claim_room() {
    let mut log = Vec::new();
    report_verdict(&mut log, TxBufferTrackingState::Consistent, 0, 13500);
    assert_eq!(log.len(), 3);
    report_verdict(&mut log, TxBufferTrackingState::Consistent, 1, 13500);
    assert_eq!(log[6], "  Server can send 1 bytes on stream 8.");
}

#[test]
fn a_failed_action_ends_the_run() {
    let done = events(TxBufferTrackingState::Consistent, 1);
    for at in 0..SCRIPT_LEN {
        let (_, _, mut run) = play(&done[..at]);
        let fallible = !matches!(
            script()[at],
            Action::ProbeCapacity { .. }
                | Action::ReadCongestionWindow
                | Action::ReadTrackingState
        );
        assert_eq!(run.accepts(Event::Failed), fallible);
        if fallible {
            assert!(run.record(Event::Failed).is_empty());
            assert_eq!(run.next(), None);
            assert!(!run.accepts(Event::Done));
        }
    }
}

#[test]
fn events_that_do_not_fit_are_not_accepted() {
    let run = Run::new();
    assert!(run.accepts(Event::Done));
    assert!(run.accepts(Event::Failed));
    assert!(!run.accepts(Event::Packets(1)));
    assert!(!run.accepts(Event::Window(None)));
    let (_, _, run) = play(&events(TxBufferTrackingState::Consistent, 1)[..10]);
    assert_eq!(
        run.next(),
        Some(Action::ServerSend { stream_id: 4, len: 50000, fin: false })
    );
    assert!(!run.accepts(Event::Accepted(None)));
    assert!(run.accepts(Event::Accepted(Some(0))));
}

#[test]
fn a_refused_probe_and_a_missing_path_count_as_zero() {
    assert_eq!(get_send_capacity(None), 0);
    assert_eq!(get_send_capacity(Some(100000)), 100000);
    assert_eq!(congestion_window(None), 0);
    assert_eq!(congestion_window(Some(13500)), 13500);
    let (_, _, mut run) = play(&events(TxBufferTrackingState::Consistent, 1)[..11]);
    assert_eq!(run.record(Event::Window(None)), vec!["   Congestion window (cwnd): 0"]);
}

#[test]
fn the_run_is_made_under_two_algorithms() {
    assert_eq!(algorithms(), vec!["cubic", "bbr2"]);
    assert_eq!(
        announce("cubic"),
        vec![
            "\n============================================================",
            "Testing with congestion control: cubic",
            "============================================================\n",
        ]
    );
}

#[test]
fn the_settings_have_generous_limits() {
    let settings = Settings::new("bbr2");
    assert_eq!(settings.cc_algorithm, "bbr2");
    assert_eq!(settings.application_proto, "h3");
    assert_eq!(settings.cert_chain_file, "examples/cert.crt");
    assert_eq!(settings.priv_key_file, "examples/cert.key");
    assert_eq!(settings.initial_max_data, 50000);
    assert_eq!(settings.initial_max_stream_data_bidi_local, 120000);
    assert_eq!(settings.initial_max_stream_data_bidi_remote, 120000);
    assert_eq!(settings.initial_max_streams_bidi, 10);
    assert_eq!(settings.max_recv_udp_payload_size, 1200);
    assert!(!settings.verify_peer);
}

#[test]
fn the_states_have_names() {
    assert_eq!(TxBufferTrackingState::Consistent.describe(), "Ok");
    assert_eq!(TxBufferTrackingState::Inconsistent.describe(), "Inconsistent");
}

#[test]
fn numbers_are_written_in_decimal() {
    assert_eq!(decimal(0), "0");
    assert_eq!(decimal(9), "9");
    assert_eq!(decimal(10), "10");
    assert_eq!(decimal(1234567890), "1234567890");
    assert_eq!(decimal(u64::MAX), u64::MAX.to_string());
}
