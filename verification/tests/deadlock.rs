use h3_stream_repro::deadlock::{
    report_outcome, stop_while_waiting, STREAM_ID, WAIT_TIMEOUT_SECS, WIRE_ERR_CODE,
};
use std::time::Duration;
use tokio::time::timeout;

#[test]
fn the_log_tells_the_scenario() {
    assert_eq!((STREAM_ID, WIRE_ERR_CODE, WAIT_TIMEOUT_SECS), (0, 4242, 5));
    let stopped = stop_while_waiting(STREAM_ID, WIRE_ERR_CODE);
    assert_eq!(
        stopped.log,
        vec![
            "=== tokio-quiche STOP_SENDING deadlock repro ===\n",
            "Scenario: server in wait_for_recv() when client sends STOP_SENDING\n",
            "[Driver] Stream 0 entered waiting_streams via wait_for_recv()",
            "[Driver] ctx.recv = None: true",
            "[Driver] WaitForDownstreamData holds channel: true",
            "\n[Client] Sending STOP_SENDING...",
            "[Driver] handle_recvd_stop_sending(4242)",
            "[Driver] Set self.recv = None (was already None — NO-OP)",
            "[Driver] waiting_streams NOT iterated — WaitForDownstreamData not notified",
            "[Driver] OutboundFrameSender still open: true",
            "[Driver] WaitForDownstreamData still holds channel: true",
            "\n[Driver] Polling WaitForDownstreamData (with 5s timeout)...",
        ]
    );
}

#[test]
fn the_stopped_wait_is_left_on_an_open_channel() {
    let stopped = stop_while_waiting(18446744073709551615, 1);
    assert!(stopped.ctx.recv.is_none());
    assert!(stopped.ctx.fin_or_reset_sent);
    assert_eq!(stopped.ctx.queued_frame, None);
    assert_eq!(stopped.waiting.stream_id, 18446744073709551615);
    assert!(!stopped.outbound_tx.is_closed());
    assert_eq!(
        stopped.log[2],
        "[Driver] Stream 18446744073709551615 entered waiting_streams via wait_for_recv()"
    );
    let mut rx = stopped.waiting.chan.unwrap();
    stopped.outbound_tx.try_send("frame").unwrap();
    assert_eq!(rx.try_recv(), Ok("frame"));
}

#[test]
fn the_stopped_wait_hangs() {
    let stopped = stop_while_waiting(STREAM_ID, WIRE_ERR_CODE);
    let mut rx = stopped.waiting.chan.unwrap();
    let runtime = tokio::runtime::Builder::new_current_thread().enable_time().build().unwrap();
    let result = runtime.block_on(async move {
        timeout(Duration::from_secs(WAIT_TIMEOUT_SECS), rx.recv()).await
    });
    assert!(result.is_err());
    assert_eq!(
        report_outcome(result.is_err())[1],
        "*** BUG CONFIRMED: WaitForDownstreamData HUNG for 5 seconds ***"
    );
    drop(stopped.outbound_tx);
}

fn explanation() -> Vec<&'static str> {
    vec![
        "\n--- Root cause ---",
        "handle_recvd_stop_sending(): self.recv = None (ctx.recv was already None)",
        "wait_for_recv() had already moved recv into WaitForDownstreamData.",
        "The assignment is a no-op — the channel remains open.",
        "",
        "--- Fix ---",
        "In process_writable_stream() StreamStopped arm, after handle_recvd_stop_sending():",
        "  if ctx.recv.is_none() {",
        "      for pending in self.waiting_streams.iter_mut() {",
        "          match pending {",
        "              WaitForStream::Downstream(WaitForDownstreamData {",
        "                  stream_id: id, chan: Some(chan),",
        "              }) if *id == stream_id => { chan.close(); break; },",
        "              _ => {},",
        "          }",
        "      }",
        "  }",
        "(Mirrors the existing h3::Event::Reset handler at driver/mod.rs:656)",
    ]
}

#[test]
fn a_hang_is_reported() {
    let mut expected = vec![
        "",
        "*** BUG CONFIRMED: WaitForDownstreamData HUNG for 5 seconds ***",
        "    In production: stream leaks in waiting_streams until connection",
        "    closes (max_idle_timeout, default 30s).",
    ];
    expected.extend(explanation());
    assert_eq!(report_outcome(true), expected);
}

#[test]
fn an_ended_wait_is_reported() {
    let mut expected = vec!["", "Channel closed (fix applied)"];
    expected.extend(explanation());
    assert_eq!(report_outcome(false), expected);
}
