//! A run over a connected client and server that shows whether the server's send
//! buffer is accounted for after the client cancels a stream.
//!
//! The server fills its congestion window on one stream, the client cancels that stream
//! with STOP_SENDING while the bytes are in flight, and the acknowledgements
//! arrive for a stream that is gone. If they still lower the count of buffered
//! bytes, the server can send on; if not, its send capacity stays used up.
//!
//! A [`Run`] says what to do next ([`Run::next`]) and is told what came of it
//! ([`Run::record`]), which also yields what to print.

use crate::text::{
    decimal, decimal_text, law_appended_text_shows, law_decimal_tells_numbers_apart,
    law_inserted_text_shows, say, say_pair, say_with, texts,
};
use vstd::prelude::*;

verus! {

/// The stream of the client's first request.
pub const FIRST_STREAM: u64 = 0;

/// The stream that the client cancels.
pub const CANCELLED_STREAM: u64 = 4;

/// The error code with which it is cancelled.
pub const CANCEL_CODE: u64 = 42;

/// The stream on which the server goes on to send.
pub const NEXT_STREAM: u64 = 8;

/// The stream that is used to find out the send capacity.
pub const PROBE_STREAM: u64 = 12;

/// How many bytes are offered to find out the send capacity.
pub const PROBE_LEN: usize = 100000;

/// How many bytes the server responds with, more than the congestion window.
pub const RESPONSE_LEN: usize = 50000;

/// How many bytes the server reads of a request at most.
pub const REQUEST_BUF_LEN: usize = 1024;

/// How many actions a run takes.
pub const SCRIPT_LEN: usize = 22;

/// The step that reads the congestion window.
pub const WINDOW_STEP: usize = 11;

/// The step that reads the tracking state.
pub const TRACKING_STEP: usize = 19;

/// The step in which the server sends on the next stream.
pub const NEXT_SEND_STEP: usize = 20;

/// Whether the count of buffered bytes agrees with what is buffered.
#[derive(Clone, Copy, Debug, PartialEq, Eq, Structural)]
pub enum TxBufferTrackingState {
    /// The count agrees.
    Consistent,
    /// The count has drifted.
    Inconsistent,
}

/// How client and server are set up.
pub struct Settings {
    /// The congestion control algorithm.
    pub cc_algorithm: String,
    /// The application protocol that both offer.
    pub application_proto: &'static str,
    /// The file of the certificate chain.
    pub cert_chain_file: &'static str,
    /// The file of the private key.
    pub priv_key_file: &'static str,
    /// Flow control of the connection, in bytes.
    pub initial_max_data: u64,
    /// Flow control of a stream opened on this side, in bytes.
    pub initial_max_stream_data_bidi_local: u64,
    /// Flow control of a stream opened by the peer, in bytes.
    pub initial_max_stream_data_bidi_remote: u64,
    /// How many streams the peer may open.
    pub initial_max_streams_bidi: u64,
    /// The largest datagram that is received, in bytes.
    pub max_recv_udp_payload_size: usize,
    /// Whether the peer's certificate is verified.
    pub verify_peer: bool,
}

/// Something to do with the connected client and server.
#[derive(Clone, Copy, Debug, PartialEq, Eq)]
pub enum Action {
    /// Set both up, connect them, and complete the handshake.
    Connect,
    /// The server offers `len` zero bytes, without ending the stream; what is accepted
    /// is its send capacity.
    ProbeCapacity { stream_id: u64, len: usize },
    /// The client sends a request.
    ClientSend { stream_id: u64, request: &'static str, fin: bool },
    /// The server reads a request.
    ServerRecv { stream_id: u64, max_len: usize },
    /// Packets are exchanged until neither side has any.
    Advance,
    /// The server offers a response of `len` zero bytes.
    ServerSend { stream_id: u64, len: usize, fin: bool },
    /// The congestion window of the server's first path is read.
    ReadCongestionWindow,
    /// The server's packets are collected.
    EmitServerFlight,
    /// The client stops reading a stream: it will send STOP_SENDING.
    StopReading { stream_id: u64, error_code: u64 },
    /// The client's packets are collected.
    EmitClientFlight,
    /// The client's collected packets reach the server.
    DeliverToServer,
    /// The server's collected packets reach the client.
    DeliverToClient,
    /// The server is asked whether its count of buffered bytes agrees.
    ReadTrackingState,
}

/// What came of an [`Action`].
#[derive(Clone, Copy, Debug, PartialEq, Eq)]
pub enum Event {
    /// It is done.
    Done,
    /// So many of the bytes offered were accepted; of a probe, nothing if it was refused.
    Accepted(Option<usize>),
    /// So many packets were collected.
    Packets(usize),
    /// The congestion window, if there is a path.
    Window(Option<usize>),
    /// Whether the count of buffered bytes agrees.
    Tracking(TxBufferTrackingState),
    /// It failed.
    Failed,
}

impl TxBufferTrackingState {
    /// The name under which the state is reported.
    pub open spec fn text(self) -> Seq<char> {
        match self {
            TxBufferTrackingState::Consistent => "Ok"@,
            TxBufferTrackingState::Inconsistent => "Inconsistent"@,
        }
    }

    /// The name under which the state is reported.
    pub fn describe(self) -> (r: &'static str)
        ensures
            r@ == self.text(),
    {
        match self {
            TxBufferTrackingState::Consistent => "Ok",
            TxBufferTrackingState::Inconsistent => "Inconsistent",
        }
    }
}

/// The congestion control algorithms under which the run is made, in order.
pub open spec fn algorithm_names() -> Seq<Seq<char>> {
    seq!["cubic"@, "bbr2"@]
}

/// The congestion control algorithms under which the run is made, in order.
pub fn algorithms() -> (r: Vec<String>)
    ensures
        texts(r@) == algorithm_names(),
{
    let mut names: Vec<String> = Vec::new();
    say(&mut names, "cubic");
    say(&mut names, "bbr2");
    names
}

/// What is said before a run.
pub open spec fn banner(cc_algorithm: Seq<char>) -> Seq<Seq<char>> {
    seq![
        "\n============================================================"@,
        "Testing with congestion control: "@ + cc_algorithm,
        "============================================================\n"@,
    ]
}

/// Announces a run.
pub fn announce(cc_algorithm: &str) -> (log: Vec<String>)
    ensures
        texts(log@) == banner(cc_algorithm@),
{
    let mut log: Vec<String> = Vec::new();
    say(&mut log, "\n============================================================");
    say_pair(&mut log, "Testing with congestion control: ", cc_algorithm);
    say(&mut log, "============================================================\n");
    log
}

impl Settings {
    /// Whether these are the settings of a run under the given algorithm.
    pub open spec fn suit(self, cc_algorithm: Seq<char>) -> bool {
        &&& self.cc_algorithm@ == cc_algorithm
        &&& self.application_proto@ == "h3"@
        &&& self.cert_chain_file@ == "examples/cert.crt"@
        &&& self.priv_key_file@ == "examples/cert.key"@
        &&& self.initial_max_data == 50000
        &&& self.initial_max_stream_data_bidi_local == 120000
        &&& self.initial_max_stream_data_bidi_remote == 120000
        &&& self.initial_max_streams_bidi == 10
        &&& self.max_recv_udp_payload_size == 1200
        &&& !self.verify_peer
    }

    /// The settings of a run, with generous limits.
    pub fn new(cc_algorithm: &str) -> (r: Settings)
        ensures
            r.suit(cc_algorithm@),
            r.cc_algorithm@ == cc_algorithm@,
            r.application_proto@ == "h3"@,
            r.cert_chain_file@ == "examples/cert.crt"@,
            r.priv_key_file@ == "examples/cert.key"@,
            r.initial_max_data == 50000,
            r.initial_max_stream_data_bidi_local == 120000,
            r.initial_max_stream_data_bidi_remote == 120000,
            r.initial_max_streams_bidi == 10,
            r.max_recv_udp_payload_size == 1200,
            !r.verify_peer,
    {
        Settings {
            cc_algorithm: cc_algorithm.to_owned(),
            application_proto: "h3",
            cert_chain_file: "examples/cert.crt",
            priv_key_file: "examples/cert.key",
            initial_max_data: 50000,
            initial_max_stream_data_bidi_local: 120000,
            initial_max_stream_data_bidi_remote: 120000,
            initial_max_streams_bidi: 10,
            max_recv_udp_payload_size: 1200,
            verify_peer: false,
        }
    }
}

/// A number that may be missing, where a missing one counts as zero.
pub open spec fn number_or_zero(n: Option<usize>) -> nat {
    match n {
        Some(n) => n as nat,
        None => 0,
    }
}

/// The send capacity that a probe shows: what was accepted, and none if it was
/// refused.
pub fn get_send_capacity(accepted: Option<usize>) -> (r: usize)
    ensures
        r == number_or_zero(accepted),
        r == (match accepted {
            Some(n) => n,
            None => 0,
        }),
{
    match accepted {
        Some(n) => n,
        None => 0,
    }
}

/// The congestion window to compare with: that of the first path, and zero without a
/// path.
pub fn congestion_window(first_path: Option<usize>) -> (r: usize)
    ensures
        r == number_or_zero(first_path),
        r == (match first_path {
            Some(n) => n,
            None => 0,
        }),
{
    first_path.unwrap_or(0)
}

/// The number that an event reports: bytes accepted, packets, or the window, where
/// nothing counts as zero.
pub open spec fn event_number(event: Event) -> nat {
    match event {
        Event::Accepted(Some(n)) => n as nat,
        Event::Packets(n) => n as nat,
        Event::Window(Some(n)) => n as nat,
        _ => 0,
    }
}

/// The state that an event reports.
pub open spec fn event_tracking(event: Event) -> TxBufferTrackingState {
    match event {
        Event::Tracking(state) => state,
        _ => TxBufferTrackingState::Inconsistent,
    }
}

/// Whether the event can come of the action. A probe cannot fail, as one that is refused
/// shows a capacity of zero, and neither can what only reads.
pub open spec fn fits(action: Action, event: Event) -> bool {
    match action {
        Action::ProbeCapacity { .. } => event is Accepted,
        Action::ServerSend { .. } => (event matches Event::Accepted(n) && n is Some)
            || event is Failed,
        Action::ReadCongestionWindow => event is Window,
        Action::EmitServerFlight => event is Packets || event is Failed,
        Action::EmitClientFlight => event is Packets || event is Failed,
        Action::ReadTrackingState => event is Tracking,
        _ => event is Done || event is Failed,
    }
}

/// The actions of a run, in order.
pub open spec fn script() -> Seq<Action> {
    seq![
        Action::Connect,
        Action::ProbeCapacity { stream_id: PROBE_STREAM, len: PROBE_LEN },
        Action::ClientSend { stream_id: FIRST_STREAM, request: "GET /video1", fin: true },
        Action::ClientSend { stream_id: CANCELLED_STREAM, request: "GET /video2", fin: false },
        Action::ClientSend { stream_id: NEXT_STREAM, request: "GET /video3", fin: true },
        Action::Advance,
        Action::ServerRecv { stream_id: FIRST_STREAM, max_len: REQUEST_BUF_LEN },
        Action::ServerRecv { stream_id: CANCELLED_STREAM, max_len: REQUEST_BUF_LEN },
        Action::ServerRecv { stream_id: NEXT_STREAM, max_len: REQUEST_BUF_LEN },
        Action::Advance,
        Action::ServerSend { stream_id: CANCELLED_STREAM, len: RESPONSE_LEN, fin: false },
        Action::ReadCongestionWindow,
        Action::ProbeCapacity { stream_id: PROBE_STREAM, len: PROBE_LEN },
        Action::EmitServerFlight,
        Action::StopReading { stream_id: CANCELLED_STREAM, error_code: CANCEL_CODE },
        Action::EmitClientFlight,
        Action::DeliverToServer,
        Action::DeliverToClient,
        Action::Advance,
        Action::ReadTrackingState,
        Action::ServerSend { stream_id: NEXT_STREAM, len: RESPONSE_LEN, fin: false },
        Action::ProbeCapacity { stream_id: PROBE_STREAM, len: PROBE_LEN },
    ]
}

/// What is to be done after the given events: the next action of the script, and nothing
/// once the script is through or an action has failed.
pub open spec fn next_action(events: Seq<Event>) -> Option<Action> {
    if events.len() >= SCRIPT_LEN || (events.len() > 0 && events.last() is Failed) {
        None
    } else {
        Some(script()[events.len() as int])
    }
}

/// Whether the events can be those of a run so far: each fits the action it came of, and
/// nothing follows a failure.
pub open spec fn is_run(events: Seq<Event>) -> bool {
    &&& events.len() <= SCRIPT_LEN
    &&& forall|i: int| 0 <= i < events.len() ==> fits(script()[i], #[trigger] events[i])
    &&& forall|i: int| 0 <= i < events.len() - 1 ==> !(#[trigger] events[i] is Failed)
}

/// The verdict on a run: whether the count of buffered bytes agrees, what can be sent on
/// the next stream, and the congestion window that this should be near to.
pub open spec fn verdict_log(
    state: TxBufferTrackingState,
    can_send: nat,
    cwnd: nat,
) -> Seq<Seq<char>> {
    match state {
        TxBufferTrackingState::Consistent => {
            let lines = seq![
                "\n✓ SUCCESS: tx_buffered_state is Ok"@,
                "  The fix (aea75924) is working correctly."@,
                "  Send capacity is properly restored after stream cancellation."@,
            ];
            if can_send > 0 {
                lines.push("  Server can send "@ + decimal_text(can_send) + " bytes on stream 8."@)
            } else {
                lines
            }
        },
        TxBufferTrackingState::Inconsistent => seq![
            "\n✗ FAILURE: tx_buffered_state is "@ + state.text(),
            "  This indicates the bug is present."@,
            "  The server incorrectly thinks its send buffer is still full."@,
            "  Send capacity is only "@ + decimal_text(can_send)
                + " bytes (should be near cwnd: "@ + decimal_text(cwnd) + ")."@,
        ],
    }
}

/// What is said after the last of the given events.
pub open spec fn said_after(events: Seq<Event>) -> Seq<Seq<char>> {
    let step = events.len() - 1;
    let event = events.last();
    if event is Failed {
        seq![]
    } else if step == 0 {
        seq!["1. Connection established"@]
    } else if step == 1 {
        seq!["   Initial send capacity: "@ + decimal_text(event_number(event)) + " bytes"@]
    } else if step == 5 {
        seq!["2. Client sent requests on streams 0, 4, 8"@]
    } else if step == 9 {
        seq!["3. Server received requests"@]
    } else if step == 10 {
        seq!["4. Server queued "@ + decimal_text(event_number(event)) + " bytes on stream 4"@]
    } else if step == 11 {
        seq!["   Congestion window (cwnd): "@ + decimal_text(event_number(event))]
    } else if step == 12 {
        seq!["   Send capacity after queue: "@ + decimal_text(event_number(event)) + " bytes"@]
    } else if step == 13 {
        seq![
            "5. Server emitted "@ + decimal_text(event_number(event))
                + " packets (bytes now in flight)"@,
        ]
    } else if step == 14 {
        seq!["6. Client cancelled stream 4 (sent STOP_SENDING)"@]
    } else if step == 15 {
        seq![
            "   Client emitted "@ + decimal_text(event_number(event))
                + " packets with STOP_SENDING"@,
        ]
    } else if step == 16 {
        seq!["7. Server received STOP_SENDING, stream 4 removed"@]
    } else if step == 17 {
        seq!["8. Client received server data, will send ACKs"@]
    } else if step == 18 {
        seq!["9. Connection advanced (ACKs processed)"@]
    } else if step == 19 {
        seq!["\n--- RESULTS ---"@, "tx_buffered_state: "@ + event_tracking(event).text()]
    } else if step == 20 {
        seq!["Bytes sendable on stream 8: "@ + decimal_text(event_number(event))]
    } else if step == 21 {
        seq!["Final send capacity: "@ + decimal_text(event_number(event)) + " bytes"@] + verdict_log(
            event_tracking(events[TRACKING_STEP as int]),
            event_number(events[NEXT_SEND_STEP as int]),
            event_number(events[WINDOW_STEP as int]),
        )
    } else {
        seq![]
    }
}

/// Everything that is said over the given events.
pub open spec fn said(events: Seq<Event>) -> Seq<Seq<char>>
    decreases events.len(),
{
    if events.len() == 0 {
        seq![]
    } else {
        said(events.drop_last()) + said_after(events)
    }
}

/// Appends the verdict on a run to a log.
pub fn report_verdict(
    log: &mut Vec<String>,
    state: TxBufferTrackingState,
    can_send: usize,
    cwnd: usize,
)
    ensures
        texts(final(log)@) == texts(old(log)@) + verdict_log(state, can_send as nat, cwnd as nat),
{
    let bytes = decimal(can_send as u64);
    match state {
        TxBufferTrackingState::Consistent => {
            say(log, "\n✓ SUCCESS: tx_buffered_state is Ok");
            say(log, "  The fix (aea75924) is working correctly.");
            say(log, "  Send capacity is properly restored after stream cancellation.");
            if can_send > 0 {
                say_with(log, "  Server can send ", bytes.as_str(), " bytes on stream 8.");
            }
        },
        TxBufferTrackingState::Inconsistent => {
            say_pair(log, "\n✗ FAILURE: tx_buffered_state is ", state.describe());
            say(log, "  This indicates the bug is present.");
            say(log, "  The server incorrectly thinks its send buffer is still full.");
            let mut line = "  Send capacity is only ".to_owned();
            line.append(bytes.as_str());
            line.append(" bytes (should be near cwnd: ");
            let window = decimal(cwnd as u64);
            say_with(log, line.as_str(), window.as_str(), ").");
        },
    }
}

/// A run, by the events that came of its actions so far.
pub struct Run {
    events: Vec<Event>,
}

impl View for Run {
    type V = Seq<Event>;

    closed spec fn view(&self) -> Seq<Event> {
        self.events@
    }
}

impl Run {
    /// The events noted are those of a run.
    #[verifier::type_invariant]
    spec fn well_formed(self) -> bool {
        is_run(self.events@)
    }

    /// A run that has not begun.
    pub fn new() -> (r: Run)
        ensures
            r@ == Seq::<Event>::empty(),
            is_run(r@),
    {
        Run { events: Vec::new() }
    }

    /// The number that the event of a step reported.
    fn number(&self, step: usize) -> (r: usize)
        requires
            step < self@.len(),
        ensures
            r == event_number(self@[step as int]),
    {
        match self.events[step] {
            Event::Accepted(n) => get_send_capacity(n),
            Event::Packets(n) => n,
            Event::Window(n) => congestion_window(n),
            _ => 0,
        }
    }

    /// The state that the event of a step reported.
    fn tracking(&self, step: usize) -> (r: TxBufferTrackingState)
        requires
            step < self@.len(),
        ensures
            r == event_tracking(self@[step as int]),
    {
        match self.events[step] {
            Event::Tracking(state) => state,
            _ => TxBufferTrackingState::Inconsistent,
        }
    }

    /// What to do next; nothing once the run is over.
    pub fn next(&self) -> (r: Option<Action>)
        ensures
            r == next_action(self@),
    {
        let step = self.events.len();
        if step >= SCRIPT_LEN {
            return None;
        }
        if step > 0 {
            if let Event::Failed = self.events[step - 1] {
                return None;
            }
        }
        Some(
            match step {
                0 => Action::Connect,
                1 => Action::ProbeCapacity { stream_id: PROBE_STREAM, len: PROBE_LEN },
                2 => Action::ClientSend {
                    stream_id: FIRST_STREAM,
                    request: "GET /video1",
                    fin: true,
                },
                3 => Action::ClientSend {
                    stream_id: CANCELLED_STREAM,
                    request: "GET /video2",
                    fin: false,
                },
                4 => Action::ClientSend {
                    stream_id: NEXT_STREAM,
                    request: "GET /video3",
                    fin: true,
                },
                5 => Action::Advance,
                6 => Action::ServerRecv { stream_id: FIRST_STREAM, max_len: REQUEST_BUF_LEN },
                7 => Action::ServerRecv { stream_id: CANCELLED_STREAM, max_len: REQUEST_BUF_LEN },
                8 => Action::ServerRecv { stream_id: NEXT_STREAM, max_len: REQUEST_BUF_LEN },
                9 => Action::Advance,
                10 => Action::ServerSend {
                    stream_id: CANCELLED_STREAM,
                    len: RESPONSE_LEN,
                    fin: false,
                },
                11 => Action::ReadCongestionWindow,
                12 => Action::ProbeCapacity { stream_id: PROBE_STREAM, len: PROBE_LEN },
                13 => Action::EmitServerFlight,
                14 => Action::StopReading { stream_id: CANCELLED_STREAM, error_code: CANCEL_CODE },
                15 => Action::EmitClientFlight,
                16 => Action::DeliverToServer,
                17 => Action::DeliverToClient,
                18 => Action::Advance,
                19 => Action::ReadTrackingState,
                20 => Action::ServerSend { stream_id: NEXT_STREAM, len: RESPONSE_LEN, fin: false },
                _ => Action::ProbeCapacity { stream_id: PROBE_STREAM, len: PROBE_LEN },
            },
        )
    }

    /// Whether the event can come of the next action.
    pub fn accepts(&self, event: Event) -> (r: bool)
        ensures
            r == (next_action(self@) matches Some(action) && fits(action, event)),
    {
        let action = match self.next() {
            Some(action) => action,
            None => {
                return false;
            },
        };
        match action {
            Action::ProbeCapacity { .. } => matches!(event, Event::Accepted(_)),
            Action::ServerSend { .. } => matches!(event, Event::Accepted(Some(_)) | Event::Failed),
            Action::ReadCongestionWindow => matches!(event, Event::Window(_)),
            Action::EmitServerFlight => matches!(event, Event::Packets(_) | Event::Failed),
            Action::EmitClientFlight => matches!(event, Event::Packets(_) | Event::Failed),
            Action::ReadTrackingState => matches!(event, Event::Tracking(_)),
            _ => matches!(event, Event::Done | Event::Failed),
        }
    }

    /// Takes note of what came of the next action, and says what to print of it.
    pub fn record(&mut self, event: Event) -> (log: Vec<String>)
        requires
            next_action(old(self)@) matches Some(action) && fits(action, event),
        ensures
            final(self)@ == old(self)@.push(event),
            is_run(final(self)@),
            texts(log@) == said_after(final(self)@),
    {
        let mut log: Vec<String> = Vec::new();
        let step = self.events.len();
        proof {
            use_type_invariant(&*self);
        }
        let mut events: Vec<Event> = Vec::new();
        std::mem::swap(&mut events, &mut self.events);
        events.push(event);
        self.events = events;
        if let Event::Failed = event {
            return log;
        }
        let number = decimal(self.number(step) as u64);
        match step {
            0 => {
                say(&mut log, "1. Connection established");
            },
            1 => {
                say_with(&mut log, "   Initial send capacity: ", number.as_str(), " bytes");
            },
            5 => {
                say(&mut log, "2. Client sent requests on streams 0, 4, 8");
            },
            9 => {
                say(&mut log, "3. Server received requests");
            },
            10 => {
                say_with(&mut log, "4. Server queued ", number.as_str(), " bytes on stream 4");
            },
            11 => {
                say_pair(&mut log, "   Congestion window (cwnd): ", number.as_str());
            },
            12 => {
                say_with(&mut log, "   Send capacity after queue: ", number.as_str(), " bytes");
            },
            13 => {
                say_with(
                    &mut log,
                    "5. Server emitted ",
                    number.as_str(),
                    " packets (bytes now in flight)",
                );
            },
            14 => {
                say(&mut log, "6. Client cancelled stream 4 (sent STOP_SENDING)");
            },
            15 => {
                say_with(
                    &mut log,
                    "   Client emitted ",
                    number.as_str(),
                    " packets with STOP_SENDING",
                );
            },
            16 => {
                say(&mut log, "7. Server received STOP_SENDING, stream 4 removed");
            },
            17 => {
                say(&mut log, "8. Client received server data, will send ACKs");
            },
            18 => {
                say(&mut log, "9. Connection advanced (ACKs processed)");
            },
            19 => {
                say(&mut log, "\n--- RESULTS ---");
                say_pair(&mut log, "tx_buffered_state: ", self.tracking(TRACKING_STEP).describe());
            },
            20 => {
                say_pair(&mut log, "Bytes sendable on stream 8: ", number.as_str());
            },
            21 => {
                say_with(&mut log, "Final send capacity: ", number.as_str(), " bytes");
                report_verdict(
                    &mut log,
                    self.tracking(TRACKING_STEP),
                    self.number(NEXT_SEND_STEP),
                    self.number(WINDOW_STEP),
                );
            },
            _ => {},
        }
        log
    }
}

/// A failed action ends the run, and nothing more is said.
pub proof fn law_failure_ends_the_run(events: Seq<Event>)
    requires
        is_run(events),
        next_action(events) matches Some(action) && fits(action, Event::Failed),
    ensures
        is_run(events.push(Event::Failed)),
        next_action(events.push(Event::Failed)) is None,
        said(events.push(Event::Failed)) == said(events),
{
    assert(events.push(Event::Failed).drop_last() =~= events);
    assert(said(events) + Seq::<Seq<char>>::empty() =~= said(events));
}

/// A run goes on until its script is through, unless an action fails.
pub proof fn law_run_goes_on(events: Seq<Event>, event: Event)
    requires
        is_run(events),
        next_action(events) matches Some(action) && fits(action, event),
        !(event is Failed),
    ensures
        is_run(events.push(event)),
        events.len() + 1 < SCRIPT_LEN ==> next_action(events.push(event)) == Some(
            script()[events.len() as int + 1],
        ),
        events.len() + 1 == SCRIPT_LEN ==> next_action(events.push(event)) is None,
        said(events.push(event)) == said(events) + said_after(events.push(event)),
{
    assert(events.push(event).drop_last() =~= events);
}

/// A refused probe is no failure: it shows a send capacity of zero, and the run goes on.
pub proof fn law_refused_probe_shows_no_capacity(stream_id: u64, len: usize, event: Event)
    requires
        fits(Action::ProbeCapacity { stream_id, len }, event),
    ensures
        !(event is Failed),
        event == Event::Accepted(None) ==> event_number(event) == 0,
{
}

/// The stream is cancelled while the server's bytes are in flight: after they are emitted,
/// and the server learns of it before they reach the client and are acknowledged.
pub proof fn law_cancelled_while_in_flight(emit: int, cancel: int, to_server: int, to_client: int)
    requires
        0 <= emit < SCRIPT_LEN,
        0 <= cancel < SCRIPT_LEN,
        0 <= to_server < SCRIPT_LEN,
        0 <= to_client < SCRIPT_LEN,
        script()[emit] == Action::EmitServerFlight,
        script()[cancel] is StopReading,
        script()[to_server] == Action::DeliverToServer,
        script()[to_client] == Action::DeliverToClient,
    ensures
        emit < cancel < to_server < to_client,
        script()[cancel] == (Action::StopReading {
            stream_id: CANCELLED_STREAM,
            error_code: CANCEL_CODE,
        }),
{
}

/// A run that is through ends with the verdict on what was observed: the tracking
/// state, the bytes accepted on the next stream, and the congestion window.
pub proof fn law_run_ends_with_the_verdict(events: Seq<Event>)
    requires
        is_run(events),
        events.len() == SCRIPT_LEN,
        !(events.last() is Failed),
    ensures
        events[WINDOW_STEP as int] is Window,
        events[TRACKING_STEP as int] is Tracking,
        events[NEXT_SEND_STEP as int] matches Event::Accepted(Some(_)),
        verdict_log(
            event_tracking(events[TRACKING_STEP as int]),
            event_number(events[NEXT_SEND_STEP as int]),
            event_number(events[WINDOW_STEP as int]),
        ).is_suffix_of(said(events)),
{
    assert(fits(script()[WINDOW_STEP as int], events[WINDOW_STEP as int]));
    assert(fits(script()[TRACKING_STEP as int], events[TRACKING_STEP as int]));
    assert(fits(script()[NEXT_SEND_STEP as int], events[NEXT_SEND_STEP as int]));
    let verdict = verdict_log(
        event_tracking(events[TRACKING_STEP as int]),
        event_number(events[NEXT_SEND_STEP as int]),
        event_number(events[WINDOW_STEP as int]),
    );
    let before = said(events.drop_last()) + seq![
        "Final send capacity: "@ + decimal_text(event_number(events.last())) + " bytes"@,
    ];
    assert(before + verdict =~= said(events));
}

/// The verdict is a success exactly if the count of buffered bytes agrees.
pub proof fn law_success_means_consistent(
    state: TxBufferTrackingState,
    can_send: nat,
    cwnd: nat,
)
    ensures
        verdict_log(state, can_send, cwnd).first() == "\n✓ SUCCESS: tx_buffered_state is Ok"@
            <==> state == TxBufferTrackingState::Consistent,
{
    reveal_strlit("\n✓ SUCCESS: tx_buffered_state is Ok");
    reveal_strlit("\n✗ FAILURE: tx_buffered_state is ");
    assert("\n✓ SUCCESS: tx_buffered_state is Ok"@[1] == '✓');
    assert(("\n✗ FAILURE: tx_buffered_state is "@ + state.text())[1] == '✗');
}

/// A number that is there counts as itself, whatever its size, and a missing one as zero.
pub proof fn law_missing_numbers_count_as_zero(n: usize)
    ensures
        number_or_zero(Some(n)) == n,
        number_or_zero(None) == 0,
{
}

/// An event reports the very number that was observed, be it bytes, packets or a window, and
/// the very state.
pub proof fn law_events_report_what_was_observed(n: usize, state: TxBufferTrackingState)
    ensures
        event_number(Event::Accepted(Some(n))) == n,
        event_number(Event::Packets(n)) == n,
        event_number(Event::Window(Some(n))) == n,
        event_number(Event::Accepted(None)) == 0,
        event_number(Event::Window(None)) == 0,
        event_tracking(Event::Tracking(state)) == state,
{
}

/// The two states are reported by different names, which are spelled out here.
pub proof fn law_states_have_names(state: TxBufferTrackingState)
    ensures
        state == TxBufferTrackingState::Consistent <==> state.text() == seq!['O', 'k'],
        state == TxBufferTrackingState::Inconsistent <==> state.text() == seq![
            'I', 'n', 'c', 'o', 'n', 's', 'i', 's', 't', 'e', 'n', 't',
        ],
{
    reveal_strlit("Ok");
    reveal_strlit("Inconsistent");
    assert("Ok"@ =~= seq!['O', 'k']);
    assert("Inconsistent"@ =~= seq![
        'I', 'n', 'c', 'o', 'n', 's', 'i', 's', 't', 'e', 'n', 't',
    ]);
    assert(seq!['O', 'k'].len() == 2);
    assert(seq!['I', 'n', 'c', 'o', 'n', 's', 'i', 's', 't', 'e', 'n', 't'].len() == 12);
}

/// An announcement names the algorithm that it announces, so that two announcements are the
/// same exactly if their algorithms are; nothing else in them differs.
pub proof fn law_announcement_names_the_algorithm(name: Seq<char>, other: Seq<char>)
    ensures
        banner(name).len() == 3,
        banner(name)[1] == "Testing with congestion control: "@ + name,
        banner(name) == banner(other) <==> name == other,
        banner(name)[1] == banner(other)[1] <==> name == other,
        banner(name)[0] == banner(other)[0],
        banner(name)[2] == banner(other)[2],
{
    if banner(name)[1] == banner(other)[1] {
        law_appended_text_shows("Testing with congestion control: "@, name, other);
    }
}

/// The runs are made under two different algorithms, cubic and then bbr2, and each run is
/// announced by a line that ends with the name of its own.
pub proof fn law_runs_are_announced_apart()
    ensures
        algorithm_names().len() == 2,
        algorithm_names()[0] == seq!['c', 'u', 'b', 'i', 'c'],
        algorithm_names()[1] == seq!['b', 'b', 'r', '2'],
        forall|i: int|
            0 <= i < algorithm_names().len() ==> (#[trigger] algorithm_names()[i]).is_suffix_of(
                banner(algorithm_names()[i])[1],
            ),
        banner(algorithm_names()[0]) != banner(algorithm_names()[1]),
{
    reveal_strlit("cubic");
    reveal_strlit("bbr2");
    assert("cubic"@ =~= seq!['c', 'u', 'b', 'i', 'c']);
    assert("bbr2"@ =~= seq!['b', 'b', 'r', '2']);
    assert(algorithm_names()[0].len() == 5);
    assert(algorithm_names()[1].len() == 4);
    law_announcement_names_the_algorithm(algorithm_names()[0], algorithm_names()[1]);
}

/// The settings of two runs differ in the algorithm alone; the limits are the same under every
/// algorithm, and no certificate is verified.
pub proof fn law_settings_differ_in_the_algorithm_alone(
    settings: Settings,
    name: Seq<char>,
    other_settings: Settings,
    other_name: Seq<char>,
)
    requires
        settings.suit(name),
        other_settings.suit(other_name),
    ensures
        settings.cc_algorithm@ == name,
        settings.application_proto@ == other_settings.application_proto@,
        settings.cert_chain_file@ == other_settings.cert_chain_file@,
        settings.priv_key_file@ == other_settings.priv_key_file@,
        settings.initial_max_data == other_settings.initial_max_data == 50000,
        settings.initial_max_stream_data_bidi_local
            == other_settings.initial_max_stream_data_bidi_local == 120000,
        settings.initial_max_stream_data_bidi_remote
            == other_settings.initial_max_stream_data_bidi_remote == 120000,
        settings.initial_max_streams_bidi == other_settings.initial_max_streams_bidi == 10,
        settings.max_recv_udp_payload_size == other_settings.max_recv_udp_payload_size == 1200,
        !settings.verify_peer,
        settings.application_proto@ == seq!['h', '3'],
{
    reveal_strlit("h3");
    assert("h3"@ =~= seq!['h', '3']);
}

/// Each kind of event comes of the actions that observe it and of no others; everything that
/// can fail may come to a failure.
pub proof fn law_events_come_of_their_actions(
    action: Action,
    n: usize,
    m: Option<usize>,
    state: TxBufferTrackingState,
)
    ensures
        fits(action, Event::Failed) <==> !(action is ProbeCapacity || action is ReadCongestionWindow
            || action is ReadTrackingState),
        fits(action, Event::Done) <==> action is Connect || action is ClientSend
            || action is ServerRecv || action is Advance || action is StopReading
            || action is DeliverToServer || action is DeliverToClient,
        fits(action, Event::Accepted(Some(n))) <==> action is ProbeCapacity || action is ServerSend,
        fits(action, Event::Accepted(None)) <==> action is ProbeCapacity,
        fits(action, Event::Packets(n)) <==> action is EmitServerFlight
            || action is EmitClientFlight,
        fits(action, Event::Window(m)) <==> action is ReadCongestionWindow,
        fits(action, Event::Tracking(state)) <==> action is ReadTrackingState,
{
}

/// What is done next depends on how many actions were taken, and on nothing that they
/// observed: runs that got equally far without a failure go on alike.
pub proof fn law_observations_do_not_change_the_script(events: Seq<Event>, others: Seq<Event>)
    requires
        events.len() == others.len(),
        events.len() > 0 ==> !(events.last() is Failed) && !(others.last() is Failed),
    ensures
        next_action(events) == next_action(others),
        next_action(events) is Some <==> events.len() < 22,
        next_action(events) is Some ==> next_action(events) == Some(script()[events.len() as int]),
{
}

/// Three streams are opened, each by its request, and each request is read once it has
/// arrived; only the stream that is to be cancelled is left open by the client. Every
/// probe is made on a stream of its own.
pub proof fn law_requests_are_sent_and_read(i: int, j: int)
    requires
        0 <= i < script().len(),
        0 <= j < script().len(),
    ensures
        script().len() == 22,
        script()[i] matches Action::ClientSend { stream_id, request, fin } ==> (stream_id == 0
            || stream_id == 4 || stream_id == 8) && (fin <==> stream_id != 4),
        script()[i] matches Action::ServerRecv { stream_id, max_len } ==> (stream_id == 0
            || stream_id == 4 || stream_id == 8) && max_len == 1024,
        script()[i] is ClientSend && script()[j] is ServerRecv ==> i < 5 < j,
        script()[5] == Action::Advance,
        script()[i] matches Action::ProbeCapacity { stream_id, len } ==> stream_id == 12 && len
            == 100000,
        script()[i] matches Action::ServerSend { stream_id, len, fin } ==> len == 50000 && !fin
            && stream_id == if i < 14 { 4u64 } else { 8u64 },
        script()[i] is StopReading <==> i == 14,
        script()[i] is ReadTrackingState <==> i == 19,
{
}

/// What is said of a step before the last depends on that step's own event alone: in runs that
/// got equally far, the same event is reported alike, whatever came before.
pub proof fn law_each_step_speaks_for_itself(events: Seq<Event>, others: Seq<Event>)
    requires
        events.len() == others.len(),
        0 < events.len() < 22,
        events.last() == others.last(),
    ensures
        said_after(events) == said_after(others),
{
}

/// A step that observes a number says that number, as it stands in the step's own event.
pub proof fn law_observed_numbers_are_said(events: Seq<Event>, n: usize)
    ensures
        events.len() == 2 && events.last() == Event::Accepted(Some(n)) ==> said_after(events) == seq![
            "   Initial send capacity: "@ + decimal_text(n as nat) + " bytes"@,
        ],
        events.len() == 11 && events.last() == Event::Accepted(Some(n)) ==> said_after(events) == seq![
            "4. Server queued "@ + decimal_text(n as nat) + " bytes on stream 4"@,
        ],
        events.len() == 12 && events.last() == Event::Window(Some(n)) ==> said_after(events) == seq![
            "   Congestion window (cwnd): "@ + decimal_text(n as nat),
        ],
        events.len() == 13 && events.last() == Event::Accepted(Some(n)) ==> said_after(events) == seq![
            "   Send capacity after queue: "@ + decimal_text(n as nat) + " bytes"@,
        ],
        events.len() == 14 && events.last() == Event::Packets(n) ==> said_after(events) == seq![
            "5. Server emitted "@ + decimal_text(n as nat) + " packets (bytes now in flight)"@,
        ],
        events.len() == 16 && events.last() == Event::Packets(n) ==> said_after(events) == seq![
            "   Client emitted "@ + decimal_text(n as nat) + " packets with STOP_SENDING"@,
        ],
        events.len() == 21 && events.last() == Event::Accepted(Some(n)) ==> said_after(events) == seq![
            "Bytes sendable on stream 8: "@ + decimal_text(n as nat),
        ],
{
}

/// A probe that was refused is said to show no bytes, and a missing path a window of zero.
pub proof fn law_missing_numbers_are_said_as_zero(events: Seq<Event>)
    ensures
        events.len() == 2 && events.last() == Event::Accepted(None) ==> said_after(events) == seq![
            "   Initial send capacity: "@ + decimal_text(0) + " bytes"@,
        ],
        events.len() == 12 && events.last() == Event::Window(None) ==> said_after(events) == seq![
            "   Congestion window (cwnd): "@ + decimal_text(0),
        ],
        events.len() == 13 && events.last() == Event::Accepted(None) ==> said_after(events) == seq![
            "   Send capacity after queue: "@ + decimal_text(0) + " bytes"@,
        ],
{
}

/// What is said of a step that observes a number tells the numbers apart: two runs that say the
/// same of it observed the same.
pub proof fn law_what_is_said_tells_numbers_apart(events: Seq<Event>, others: Seq<Event>)
    requires
        events.len() == others.len(),
        events.len() == 2 || 11 <= events.len() <= 14 || events.len() == 16 || events.len() == 21,
        !(events.last() is Failed),
        !(others.last() is Failed),
        said_after(events) == said_after(others),
    ensures
        event_number(events.last()) == event_number(others.last()),
{
    let mine = decimal_text(event_number(events.last()));
    let theirs = decimal_text(event_number(others.last()));
    if events.len() == 2 {
        assert(said_after(events)[0] == said_after(others)[0]);
        law_inserted_text_shows("   Initial send capacity: "@, mine, theirs, " bytes"@);
    }
    if events.len() == 11 {
        assert(said_after(events)[0] == said_after(others)[0]);
        law_inserted_text_shows("4. Server queued "@, mine, theirs, " bytes on stream 4"@);
    }
    if events.len() == 12 {
        assert(said_after(events)[0] == said_after(others)[0]);
        law_appended_text_shows("   Congestion window (cwnd): "@, mine, theirs);
    }
    if events.len() == 13 {
        assert(said_after(events)[0] == said_after(others)[0]);
        law_inserted_text_shows("   Send capacity after queue: "@, mine, theirs, " bytes"@);
    }
    if events.len() == 14 {
        assert(said_after(events)[0] == said_after(others)[0]);
        law_inserted_text_shows("5. Server emitted "@, mine, theirs, " packets (bytes now in flight)"@);
    }
    if events.len() == 16 {
        assert(said_after(events)[0] == said_after(others)[0]);
        law_inserted_text_shows("   Client emitted "@, mine, theirs, " packets with STOP_SENDING"@);
    }
    if events.len() == 21 {
        assert(said_after(events)[0] == said_after(others)[0]);
        law_appended_text_shows("Bytes sendable on stream 8: "@, mine, theirs);
    }
    law_decimal_tells_numbers_apart(event_number(events.last()), event_number(others.last()));
}

/// The steps that observe nothing are reported by their milestones, and those between the
/// milestones in silence.
pub proof fn law_milestones_are_said(events: Seq<Event>)
    requires
        events.len() > 0,
        !(events.last() is Failed),
    ensures
        events.len() == 1 ==> said_after(events) == seq!["1. Connection established"@],
        events.len() == 6 ==> said_after(events) == seq!["2. Client sent requests on streams 0, 4, 8"@],
        events.len() == 10 ==> said_after(events) == seq!["3. Server received requests"@],
        events.len() == 15 ==> said_after(events) == seq!["6. Client cancelled stream 4 (sent STOP_SENDING)"@],
        events.len() == 17 ==> said_after(events) == seq!["7. Server received STOP_SENDING, stream 4 removed"@],
        events.len() == 18 ==> said_after(events) == seq!["8. Client received server data, will send ACKs"@],
        events.len() == 19 ==> said_after(events) == seq!["9. Connection advanced (ACKs processed)"@],
        3 <= events.len() <= 5 || 7 <= events.len() <= 9 ==> said_after(events).len() == 0,
{
}

/// The tracking state is reported by its name, under the heading of the results.
pub proof fn law_tracking_state_is_said(events: Seq<Event>, state: TxBufferTrackingState)
    requires
        events.len() == 20,
        events.last() == Event::Tracking(state),
    ensures
        said_after(events) == seq!["\n--- RESULTS ---"@, "tx_buffered_state: "@ + state.text()],
{
}

/// The last step says the capacity that its own probe showed, and then the verdict on the
/// state, the bytes and the window that the run observed.
pub proof fn law_last_step_says_capacity_and_verdict(
    events: Seq<Event>,
    capacity: Option<usize>,
    state: TxBufferTrackingState,
    can_send: usize,
    window: Option<usize>,
)
    requires
        events.len() == 22,
        events[11] == Event::Window(window),
        events[19] == Event::Tracking(state),
        events[20] == Event::Accepted(Some(can_send)),
        events[21] == Event::Accepted(capacity),
    ensures
        said_after(events).len() > 1,
        said_after(events)[0] == "Final send capacity: "@ + decimal_text(number_or_zero(capacity))
            + " bytes"@,
        said_after(events).skip(1) == verdict_log(state, can_send as nat, number_or_zero(window)),
{
    assert(said_after(events).skip(1) =~= verdict_log(
        state,
        can_send as nat,
        number_or_zero(window),
    ));
}

/// The statements of a verdict depend on the state alone: whatever could be sent and whatever
/// the window, a consistent state is a success of the fix, with its capacity restored, and an
/// inconsistent one shows the bug, with a buffer that seems full.
pub proof fn law_verdict_statements_follow_the_state(
    state: TxBufferTrackingState,
    can_send: nat,
    cwnd: nat,
)
    ensures
        state == TxBufferTrackingState::Consistent ==> verdict_log(state, can_send, cwnd).take(3)
            == seq![
            "\n✓ SUCCESS: tx_buffered_state is Ok"@,
            "  The fix (aea75924) is working correctly."@,
            "  Send capacity is properly restored after stream cancellation."@,
        ],
        state == TxBufferTrackingState::Inconsistent ==> verdict_log(state, can_send, cwnd).take(3)
            == seq![
            "\n✗ FAILURE: tx_buffered_state is "@ + "Inconsistent"@,
            "  This indicates the bug is present."@,
            "  The server incorrectly thinks its send buffer is still full."@,
        ],
{
    let log = verdict_log(state, can_send, cwnd);
    match state {
        TxBufferTrackingState::Consistent => {
            assert(log.take(3) =~= seq![
                "\n✓ SUCCESS: tx_buffered_state is Ok"@,
                "  The fix (aea75924) is working correctly."@,
                "  Send capacity is properly restored after stream cancellation."@,
            ]);
        },
        TxBufferTrackingState::Inconsistent => {
            assert(log.take(3) =~= seq![
                "\n✗ FAILURE: tx_buffered_state is "@ + "Inconsistent"@,
                "  This indicates the bug is present."@,
                "  The server incorrectly thinks its send buffer is still full."@,
            ]);
        },
    }
}

/// A consistent verdict never says that the bug is present or the buffer full, and an
/// inconsistent one never says that the fix works or that capacity is restored.
pub proof fn law_verdict_does_not_contradict_itself(
    state: TxBufferTrackingState,
    can_send: nat,
    cwnd: nat,
    i: int,
)
    requires
        0 <= i < verdict_log(state, can_send, cwnd).len(),
    ensures
        state == TxBufferTrackingState::Consistent ==> verdict_log(state, can_send, cwnd)[i]
            != "  This indicates the bug is present."@ && verdict_log(state, can_send, cwnd)[i]
            != "  The server incorrectly thinks its send buffer is still full."@,
        state == TxBufferTrackingState::Inconsistent ==> verdict_log(state, can_send, cwnd)[i]
            != "  The fix (aea75924) is working correctly."@ && verdict_log(state, can_send, cwnd)[i]
            != "  Send capacity is properly restored after stream cancellation."@,
{
    reveal_strlit("  This indicates the bug is present.");
    reveal_strlit("  The server incorrectly thinks its send buffer is still full.");
    reveal_strlit("  The fix (aea75924) is working correctly.");
    reveal_strlit("  Send capacity is properly restored after stream cancellation.");
    reveal_strlit("\n✓ SUCCESS: tx_buffered_state is Ok");
    reveal_strlit("\n✗ FAILURE: tx_buffered_state is ");
    reveal_strlit("  Server can send ");
    reveal_strlit("  Send capacity is only ");
    let bug = "  This indicates the bug is present."@;
    let full = "  The server incorrectly thinks its send buffer is still full."@;
    let fixed = "  The fix (aea75924) is working correctly."@;
    let restored = "  Send capacity is properly restored after stream cancellation."@;
    assert(bug[3] == 'h' && bug[4] == 'i');
    assert(full[4] == 'e' && full[6] == 's');
    assert(fixed[4] == 'e' && fixed[6] == 'f');
    assert(restored[2] == 'S' && restored[19] == 'p' && restored[3] == 'e');
    let line = verdict_log(state, can_send, cwnd)[i];
    match state {
        TxBufferTrackingState::Consistent => {
            if i == 0 {
                assert(line[0] == '\n');
                assert(bug[0] == ' ' && full[0] == ' ');
            } else if i == 3 {
                assert(line[2] == 'S');
                assert(bug[2] == 'T' && full[2] == 'T');
            } else if i == 1 {
                assert(line[4] == 'e' && line[6] == 'f');
            } else {
                assert(line[2] == 'S');
                assert(bug[2] == 'T' && full[2] == 'T');
            }
        },
        TxBufferTrackingState::Inconsistent => {
            if i == 0 {
                assert(line[0] == '\n');
                assert(fixed[0] == ' ' && restored[0] == ' ');
            } else if i == 3 {
                assert(line[2] == 'S' && line[19] == 'o');
                assert(fixed[2] == 'T');
            } else if i == 1 {
                assert(line[2] == 'T' && line[3] == 'h' && line[4] == 'i');
            } else {
                assert(line[2] == 'T' && line[6] == 's');
            }
        },
    }
}

/// After its statements a verdict gives the numbers observed: a success says what can be sent,
/// if that is anything, and a failure what can be sent beside the window it should be near.
pub proof fn law_verdict_gives_the_numbers(can_send: nat, cwnd: nat)
    ensures
        verdict_log(TxBufferTrackingState::Consistent, 0, cwnd).len() == 3,
        can_send > 0 ==> verdict_log(TxBufferTrackingState::Consistent, can_send, cwnd).skip(3)
            == seq!["  Server can send "@ + decimal_text(can_send) + " bytes on stream 8."@],
        verdict_log(TxBufferTrackingState::Inconsistent, can_send, cwnd).skip(3) == seq![
            "  Send capacity is only "@ + decimal_text(can_send)
                + " bytes (should be near cwnd: "@ + decimal_text(cwnd) + ")."@,
        ],
{
    if can_send > 0 {
        assert(verdict_log(TxBufferTrackingState::Consistent, can_send, cwnd).skip(3) =~= seq![
            "  Server can send "@ + decimal_text(can_send) + " bytes on stream 8."@,
        ]);
    }
    assert(verdict_log(TxBufferTrackingState::Inconsistent, can_send, cwnd).skip(3) =~= seq![
        "  Send capacity is only "@ + decimal_text(can_send) + " bytes (should be near cwnd: "@
            + decimal_text(cwnd) + ")."@,
    ]);
}

} // verus!
