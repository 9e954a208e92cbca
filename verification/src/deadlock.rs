//! The STOP_SENDING deadlock, step by step: a stream begins to wait for outbound
//! data, the peer sends STOP_SENDING, and the wait goes on.

use crate::channel::{is_closed, linked, receiver_bound, receiver_closed, OutboundFrame};
use crate::stream::{
    law_first_line_tells_codes_apart, law_stop_sending_names_its_code, stop_sending_log, StreamCtx,
    WaitForDownstreamData, CHANNEL_BOUND,
};
use crate::text::{
    bool_text, decimal, decimal_text, law_decimal_tells_numbers_apart, law_inserted_text_shows,
    law_truth_values_are_spelled_out, say, say_pair, say_with, texts, yes_or_no,
};
use tokio::sync::mpsc::Sender;
use vstd::prelude::*;

verus! {

/// The stream of the demonstration.
pub const STREAM_ID: u64 = 0;

/// The error code of its STOP_SENDING.
pub const WIRE_ERR_CODE: u64 = 4242;

/// For how many seconds the wait is given a chance to end.
pub const WAIT_TIMEOUT_SECS: u64 = 5;

/// Where things stand when the stopped stream is about to be polled.
pub struct StoppedWait {
    /// The stream's context.
    pub ctx: StreamCtx,
    /// The wait that the stream is in.
    pub waiting: WaitForDownstreamData,
    /// The application's half of the stream's channel.
    pub outbound_tx: Sender<OutboundFrame>,
    /// What was said on the way.
    pub log: Vec<String>,
}

impl StoppedWait {
    /// Whether the given stream was stopped and is left to wait on a channel that is open,
    /// and that the application can still send on.
    pub open spec fn hangs(self, stream_id: u64) -> bool {
        &&& self.ctx.recv is None
        &&& self.ctx.fin_or_reset_sent
        &&& self.ctx.queued_frame is None
        &&& self.waiting.stream_id == stream_id
        &&& self.waiting.chan matches Some(rx)
        &&& linked(self.outbound_tx, rx)
        &&& !receiver_closed(rx)
        &&& receiver_bound(rx) == CHANNEL_BOUND
    }
}

/// What is said until the waiting stream is polled.
pub open spec fn stopped_wait_log(stream_id: u64, wire_err_code: u64) -> Seq<Seq<char>> {
    seq![
        "=== tokio-quiche STOP_SENDING deadlock repro ===\n"@,
        "Scenario: server in wait_for_recv() when client sends STOP_SENDING\n"@,
        "[Driver] Stream "@ + decimal_text(stream_id as nat)
            + " entered waiting_streams via wait_for_recv()"@,
        "[Driver] ctx.recv = None: "@ + bool_text(true),
        "[Driver] WaitForDownstreamData holds channel: "@ + bool_text(true),
        "\n[Client] Sending STOP_SENDING..."@,
    ] + stop_sending_log(wire_err_code, false) + seq![
        "[Driver] OutboundFrameSender still open: "@ + bool_text(true),
        "[Driver] WaitForDownstreamData still holds channel: "@ + bool_text(true),
        "\n[Driver] Polling WaitForDownstreamData (with 5s timeout)..."@,
    ]
}

/// Opens a stream, lets it wait for outbound data, and has its peer send
/// STOP_SENDING. The wait is left holding the channel, the channel is left open, and
/// its sender with it.
pub fn stop_while_waiting(stream_id: u64, wire_err_code: u64) -> (r: StoppedWait)
    ensures
        r.hangs(stream_id),
        r.ctx.recv is None,
        r.ctx.fin_or_reset_sent,
        r.ctx.queued_frame is None,
        r.waiting.stream_id == stream_id,
        r.waiting.chan matches Some(rx) && linked(r.outbound_tx, rx) && !receiver_closed(rx)
            && receiver_bound(rx) == CHANNEL_BOUND,
        texts(r.log@) == stopped_wait_log(stream_id, wire_err_code),
{
    let mut log: Vec<String> = Vec::new();
    say(&mut log, "=== tokio-quiche STOP_SENDING deadlock repro ===\n");
    say(&mut log, "Scenario: server in wait_for_recv() when client sends STOP_SENDING\n");
    let (mut ctx, outbound_tx) = StreamCtx::new();

    let waiting = ctx.wait_for_recv(stream_id);
    let id = decimal(stream_id);
    say_with(
        &mut log,
        "[Driver] Stream ",
        id.as_str(),
        " entered waiting_streams via wait_for_recv()",
    );
    say_pair(&mut log, "[Driver] ctx.recv = None: ", yes_or_no(ctx.recv.is_none()));
    say_pair(
        &mut log,
        "[Driver] WaitForDownstreamData holds channel: ",
        yes_or_no(waiting.chan.is_some()),
    );

    say(&mut log, "\n[Client] Sending STOP_SENDING...");
    ctx.handle_recvd_stop_sending(wire_err_code, &mut log);
    let closed = match &waiting.chan {
        Some(rx) => is_closed(&outbound_tx, rx),
        None => true,
    };
    say_pair(&mut log, "[Driver] OutboundFrameSender still open: ", yes_or_no(!closed));
    say_pair(
        &mut log,
        "[Driver] WaitForDownstreamData still holds channel: ",
        yes_or_no(waiting.chan.is_some()),
    );
    say(&mut log, "\n[Driver] Polling WaitForDownstreamData (with 5s timeout)...");
    StoppedWait { ctx, waiting, outbound_tx, log }
}

/// What is said once the wait was polled: whether it hung, why it hangs, and what
/// ends it.
pub open spec fn outcome_log(timed_out: bool) -> Seq<Seq<char>> {
    seq![""@] + (if timed_out {
        seq![
            "*** BUG CONFIRMED: WaitForDownstreamData HUNG for 5 seconds ***"@,
            "    In production: stream leaks in waiting_streams until connection"@,
            "    closes (max_idle_timeout, default 30s)."@,
        ]
    } else {
        seq!["Channel closed (fix applied)"@]
    }) + seq![
        "\n--- Root cause ---"@,
        "handle_recvd_stop_sending(): self.recv = None (ctx.recv was already None)"@,
        "wait_for_recv() had already moved recv into WaitForDownstreamData."@,
        "The assignment is a no-op — the channel remains open."@,
        ""@,
        "--- Fix ---"@,
        "In process_writable_stream() StreamStopped arm, after handle_recvd_stop_sending():"@,
        "  if ctx.recv.is_none() {"@,
        "      for pending in self.waiting_streams.iter_mut() {"@,
        "          match pending {"@,
        "              WaitForStream::Downstream(WaitForDownstreamData {"@,
        "                  stream_id: id, chan: Some(chan),"@,
        "              }) if *id == stream_id => { chan.close(); break; },"@,
        "              _ => {},"@,
        "          }"@,
        "      }"@,
        "  }"@,
        "(Mirrors the existing h3::Event::Reset handler at driver/mod.rs:656)"@,
    ]
}

/// Reports on the wait: `timed_out` says that it had not ended within
/// [`WAIT_TIMEOUT_SECS`].
pub fn report_outcome(timed_out: bool) -> (log: Vec<String>)
    ensures
        texts(log@) == outcome_log(timed_out),
{
    let mut log: Vec<String> = Vec::new();
    say(&mut log, "");
    if timed_out {
        say(&mut log, "*** BUG CONFIRMED: WaitForDownstreamData HUNG for 5 seconds ***");
        say(&mut log, "    In production: stream leaks in waiting_streams until connection");
        say(&mut log, "    closes (max_idle_timeout, default 30s).");
    } else {
        say(&mut log, "Channel closed (fix applied)");
    }
    say(&mut log, "\n--- Root cause ---");
    say(&mut log, "handle_recvd_stop_sending(): self.recv = None (ctx.recv was already None)");
    say(&mut log, "wait_for_recv() had already moved recv into WaitForDownstreamData.");
    say(&mut log, "The assignment is a no-op — the channel remains open.");
    say(&mut log, "");
    say(&mut log, "--- Fix ---");
    say(&mut log, "In process_writable_stream() StreamStopped arm, after handle_recvd_stop_sending():");
    say(&mut log, "  if ctx.recv.is_none() {");
    say(&mut log, "      for pending in self.waiting_streams.iter_mut() {");
    say(&mut log, "          match pending {");
    say(&mut log, "              WaitForStream::Downstream(WaitForDownstreamData {");
    say(&mut log, "                  stream_id: id, chan: Some(chan),");
    say(&mut log, "              }) if *id == stream_id => { chan.close(); break; },");
    say(&mut log, "              _ => {},");
    say(&mut log, "          }");
    say(&mut log, "      }");
    say(&mut log, "  }");
    say(&mut log, "(Mirrors the existing h3::Event::Reset handler at driver/mod.rs:656)");
    log
}

/// A stopped wait that hangs is the wait of the stream it was asked for, and of no other. It
/// holds the open channel of sixteen frames that the application's sender feeds, and
/// the context has nothing left to end it with.
pub proof fn law_hanging_wait_holds_an_open_channel(
    stopped: StoppedWait,
    stream_id: u64,
    other_id: u64,
)
    requires
        stopped.hangs(stream_id),
    ensures
        stopped.hangs(other_id) <==> other_id == stream_id,
        stopped.waiting.stream_id == stream_id,
        stopped.waiting.chan matches Some(rx) && linked(stopped.outbound_tx, rx)
            && !receiver_closed(rx) && receiver_bound(rx) == 16,
        stopped.ctx.recv is None,
        stopped.ctx.queued_frame is None,
        stopped.ctx.fin_or_reset_sent,
{
}

/// The scenario names the stream that waits and the code that stops it, in a line each.
pub proof fn law_scenario_names_stream_and_code(stream_id: u64, wire_err_code: u64)
    ensures
        stopped_wait_log(stream_id, wire_err_code).len() == 12,
        stopped_wait_log(stream_id, wire_err_code)[2] == "[Driver] Stream "@ + decimal_text(
            stream_id as nat,
        ) + " entered waiting_streams via wait_for_recv()"@,
        stopped_wait_log(stream_id, wire_err_code)[6] == "[Driver] handle_recvd_stop_sending("@
            + decimal_text(wire_err_code as nat) + ")"@,
{
    law_stop_sending_names_its_code(wire_err_code, false);
}

/// Scenarios differ in those two lines alone: the one tells the streams apart, the other the
/// codes, and every other line is the same.
pub proof fn law_scenarios_differ_in_stream_and_code(
    stream_id: u64,
    wire_err_code: u64,
    other_id: u64,
    other_code: u64,
)
    ensures
        stopped_wait_log(stream_id, wire_err_code)[2] == stopped_wait_log(other_id, other_code)[2]
            <==> stream_id == other_id,
        stopped_wait_log(stream_id, wire_err_code)[6] == stopped_wait_log(other_id, other_code)[6]
            <==> wire_err_code == other_code,
        forall|i: int|
            0 <= i < 12 && i != 2 && i != 6 ==> #[trigger] stopped_wait_log(
                stream_id,
                wire_err_code,
            )[i] == stopped_wait_log(other_id, other_code)[i],
{
    let log = stopped_wait_log(stream_id, wire_err_code);
    let other = stopped_wait_log(other_id, other_code);
    law_scenario_names_stream_and_code(stream_id, wire_err_code);
    law_scenario_names_stream_and_code(other_id, other_code);
    law_first_line_tells_codes_apart(wire_err_code, false, other_code, false);
    assert(log[6] == stop_sending_log(wire_err_code, false)[0]);
    assert(other[6] == stop_sending_log(other_code, false)[0]);
    if log[2] == other[2] {
        law_inserted_text_shows(
            "[Driver] Stream "@,
            decimal_text(stream_id as nat),
            decimal_text(other_id as nat),
            " entered waiting_streams via wait_for_recv()"@,
        );
        law_decimal_tells_numbers_apart(stream_id as nat, other_id as nat);
    }
    assert forall|i: int| 0 <= i < 12 && i != 2 && i != 6 implies #[trigger] log[i] == other[i] by {
        if 6 < i < 9 {
            assert(log[i] == stop_sending_log(wire_err_code, false).skip(1)[i - 7]);
            assert(other[i] == stop_sending_log(other_code, false).skip(1)[i - 7]);
        }
    }
}

/// Whatever the stream and the code, the scenario finds the context without its receiver, and
/// the wait holding the channel, before the stop and after it; and it finds the sender
/// open after the stop.
pub proof fn law_scenario_finds_the_channel_open(stream_id: u64, wire_err_code: u64)
    ensures
        stopped_wait_log(stream_id, wire_err_code).take(2) == seq![
            "=== tokio-quiche STOP_SENDING deadlock repro ===\n"@,
            "Scenario: server in wait_for_recv() when client sends STOP_SENDING\n"@,
        ],
        stopped_wait_log(stream_id, wire_err_code).subrange(3, 6) == seq![
            "[Driver] ctx.recv = None: "@ + seq!['t', 'r', 'u', 'e'],
            "[Driver] WaitForDownstreamData holds channel: "@ + seq!['t', 'r', 'u', 'e'],
            "\n[Client] Sending STOP_SENDING..."@,
        ],
        stopped_wait_log(stream_id, wire_err_code).skip(7) == seq![
            "[Driver] Set self.recv = None (was already None — NO-OP)"@,
            "[Driver] waiting_streams NOT iterated — WaitForDownstreamData not notified"@,
            "[Driver] OutboundFrameSender still open: "@ + seq!['t', 'r', 'u', 'e'],
            "[Driver] WaitForDownstreamData still holds channel: "@ + seq!['t', 'r', 'u', 'e'],
            "\n[Driver] Polling WaitForDownstreamData (with 5s timeout)..."@,
        ],
{
    law_truth_values_are_spelled_out(true);
    let log = stopped_wait_log(stream_id, wire_err_code);
    assert(log.take(2) =~= seq![
        "=== tokio-quiche STOP_SENDING deadlock repro ===\n"@,
        "Scenario: server in wait_for_recv() when client sends STOP_SENDING\n"@,
    ]);
    assert(log.subrange(3, 6) =~= seq![
        "[Driver] ctx.recv = None: "@ + seq!['t', 'r', 'u', 'e'],
        "[Driver] WaitForDownstreamData holds channel: "@ + seq!['t', 'r', 'u', 'e'],
        "\n[Client] Sending STOP_SENDING..."@,
    ]);
    assert(log.skip(7) =~= seq![
        "[Driver] Set self.recv = None (was already None — NO-OP)"@,
        "[Driver] waiting_streams NOT iterated — WaitForDownstreamData not notified"@,
        "[Driver] OutboundFrameSender still open: "@ + seq!['t', 'r', 'u', 'e'],
        "[Driver] WaitForDownstreamData still holds channel: "@ + seq!['t', 'r', 'u', 'e'],
        "\n[Driver] Polling WaitForDownstreamData (with 5s timeout)..."@,
    ]);
}

/// A wait that timed out is reported as a hang, and one that ended as a closed channel; never
/// the other way round. The explanation that follows is the same for both.
pub proof fn law_outcome_follows_the_timeout(timed_out: bool)
    ensures
        outcome_log(timed_out)[0] == Seq::<char>::empty(),
        outcome_log(timed_out)[1] == "Channel closed (fix applied)"@ <==> !timed_out,
        outcome_log(timed_out)[1]
            == "*** BUG CONFIRMED: WaitForDownstreamData HUNG for 5 seconds ***"@ <==> timed_out,
        timed_out ==> outcome_log(timed_out).subrange(2, 4) == seq![
            "    In production: stream leaks in waiting_streams until connection"@,
            "    closes (max_idle_timeout, default 30s)."@,
        ],
        outcome_log(true).skip(4) == outcome_log(false).skip(2),
        outcome_log(true).len() == 22,
{
    reveal_strlit("");
    assert(""@ =~= Seq::<char>::empty());
    reveal_strlit("Channel closed (fix applied)");
    reveal_strlit("*** BUG CONFIRMED: WaitForDownstreamData HUNG for 5 seconds ***");
    assert("Channel closed (fix applied)"@[0] == 'C');
    assert("*** BUG CONFIRMED: WaitForDownstreamData HUNG for 5 seconds ***"@[0] == '*');
    assert(outcome_log(true).skip(4) =~= outcome_log(false).skip(2));
    if timed_out {
        assert(outcome_log(timed_out).subrange(2, 4) =~= seq![
            "    In production: stream leaks in waiting_streams until connection"@,
            "    closes (max_idle_timeout, default 30s)."@,
        ]);
    }
}

} // verus!
