//! The driver's side of one stream, and who holds the receiving half of its
//! outbound channel.
//!
//! The receiver lives in [`StreamCtx`] while the driver has frames to write. When the
//! channel runs empty, [`StreamCtx::wait_for_recv`] moves it into a
//! [`WaitForDownstreamData`], which the driver polls until the application sends again.

use crate::channel::{
    channel, close, closes, linked, receiver_bound, receiver_closed, OutboundFrame,
};
use crate::text::{
    decimal, decimal_text, law_decimal_tells_numbers_apart, law_inserted_text_shows, say, say_with,
    texts,
};
use tokio::sync::mpsc::{Receiver, Sender};
use vstd::prelude::*;

verus! {

/// How many outbound frames the channel of a new stream buffers.
pub const CHANNEL_BOUND: usize = 16;

/// What the driver keeps of one stream.
pub struct StreamCtx {
    /// The receiver of the outbound frames, unless a [`WaitForDownstreamData`] has it.
    pub recv: Option<Receiver<OutboundFrame>>,
    /// Whether the sending half of the stream has ended, by a FIN or by a reset.
    pub fin_or_reset_sent: bool,
    /// A frame that was received and is not written yet.
    pub queued_frame: Option<OutboundFrame>,
}

/// A stream that waits for the application to send.
pub struct WaitForDownstreamData {
    /// The stream that waits.
    pub stream_id: u64,
    /// The receiver that was taken from the stream's [`StreamCtx`].
    pub chan: Option<Receiver<OutboundFrame>>,
}

/// Whether there is a receiver here on a channel that is still open.
pub open spec fn holds_open(chan: Option<Receiver<OutboundFrame>>) -> bool {
    chan matches Some(rx) && !receiver_closed(rx)
}

/// What the driver says about a STOP_SENDING with the given code, on a stream
/// whose sending half has or has not ended before.
pub open spec fn stop_sending_log(wire_err_code: u64, fin_or_reset_sent: bool) -> Seq<Seq<char>> {
    let received = "[Driver] handle_recvd_stop_sending("@ + decimal_text(wire_err_code as nat)
        + ")"@;
    if fin_or_reset_sent {
        seq![received, "[Driver] Early return: fin_or_reset_sent already true"@]
    } else {
        seq![
            received,
            "[Driver] Set self.recv = None (was already None — NO-OP)"@,
            "[Driver] waiting_streams NOT iterated — WaitForDownstreamData not notified"@,
        ]
    }
}

impl StreamCtx {
    /// The stream once its receiver is taken.
    pub open spec fn without_recv(self) -> StreamCtx {
        StreamCtx { recv: None, ..self }
    }

    /// The wait that takes over the stream's receiver.
    pub open spec fn wait(self, stream_id: u64) -> WaitForDownstreamData {
        WaitForDownstreamData { stream_id, chan: self.recv }
    }

    /// The stream once a STOP_SENDING is handled: nothing changes if the sending
    /// half has ended before, else it ends, and what was to be sent is dropped.
    pub open spec fn stopped(self) -> StreamCtx {
        if self.fin_or_reset_sent {
            self
        } else {
            StreamCtx { recv: None, fin_or_reset_sent: true, queued_frame: None }
        }
    }

    /// What a STOP_SENDING releases: the receiver that the stream held, with its channel
    /// closed, so that every sender sees it. Nothing is released if the stream held none,
    /// or if the sending half has ended before.
    pub open spec fn releases(self, released: Option<Receiver<OutboundFrame>>) -> bool {
        match (self.recv, released) {
            (Some(rx), Some(after)) => !self.fin_or_reset_sent && closes(rx, after),
            (Some(_), None) => self.fin_or_reset_sent,
            (None, after) => after is None,
        }
    }

    /// Whether the stream is as it was opened: it holds the receiver of the given
    /// sender's channel, which is open, and nothing was sent.
    pub open spec fn fresh(self, tx: Sender<OutboundFrame>) -> bool {
        &&& self.recv matches Some(rx)
        &&& linked(tx, rx)
        &&& receiver_bound(rx) == CHANNEL_BOUND
        &&& !receiver_closed(rx)
        &&& !self.fin_or_reset_sent
        &&& self.queued_frame is None
    }

    /// Opens a stream: its context, with the receiver of a fresh channel, and the
    /// sender of that channel.
    pub fn new() -> (r: (Self, Sender<OutboundFrame>))
        ensures
            r.0.fresh(r.1),
    {
        let (tx, rx) = channel(CHANNEL_BOUND);
        (StreamCtx { recv: Some(rx), fin_or_reset_sent: false, queued_frame: None }, tx)
    }

    /// Moves the receiver into a wait for the application's next frame.
    pub fn wait_for_recv(&mut self, stream_id: u64) -> (r: WaitForDownstreamData)
        ensures
            r == old(self).wait(stream_id),
            *final(self) == old(self).without_recv(),
    {
        WaitForDownstreamData { stream_id, chan: self.recv.take() }
    }

    /// Handles a STOP_SENDING of the peer and appends to `log` what the driver says
    /// about it. A receiver that the context still holds is closed and dropped; a
    /// [`WaitForDownstreamData`] that holds the receiver is not told. The ghost result is
    /// the receiver as it was when it was dropped; that frames still buffered go with it
    /// is not part of the contract.
    pub fn handle_recvd_stop_sending(
        &mut self,
        wire_err_code: u64,
        log: &mut Vec<String>,
    ) -> (released: Ghost<Option<Receiver<OutboundFrame>>>)
        ensures
            *final(self) == old(self).stopped(),
            old(self).releases(released@),
            texts(final(log)@) == texts(old(log)@) + stop_sending_log(
                wire_err_code,
                old(self).fin_or_reset_sent,
            ),
    {
        let code = decimal(wire_err_code);
        say_with(log, "[Driver] handle_recvd_stop_sending(", code.as_str(), ")");
        if self.fin_or_reset_sent {
            say(log, "[Driver] Early return: fin_or_reset_sent already true");
            return Ghost(None);
        }
        self.fin_or_reset_sent = true;
        self.queued_frame = None;
        if let Some(rx) = &mut self.recv {
            close(rx);
        }
        let released: Ghost<Option<Receiver<OutboundFrame>>> = Ghost(self.recv);
        self.recv = None;
        say(log, "[Driver] Set self.recv = None (was already None — NO-OP)");
        say(log, "[Driver] waiting_streams NOT iterated — WaitForDownstreamData not notified");
        released
    }
}

/// A receiver has one holder: a wait takes exactly what the stream held, leaves the
/// stream nothing, and a second wait finds nothing to take. The wait is that of the stream
/// it was asked for, and the rest of the context stays as it is.
pub proof fn law_wait_moves_the_receiver(ctx: StreamCtx, stream_id: u64, again: u64)
    ensures
        ctx.wait(stream_id).stream_id == stream_id,
        ctx.wait(stream_id).chan == ctx.recv,
        ctx.without_recv().recv is None,
        ctx.without_recv().fin_or_reset_sent == ctx.fin_or_reset_sent,
        ctx.without_recv().queued_frame == ctx.queued_frame,
        ctx.without_recv().wait(again).chan is None,
        ctx.without_recv().without_recv() == ctx.without_recv(),
{
}

/// While a stream waits, STOP_SENDING ends its sending half but does not reach its
/// channel: the context's receiver is gone already, so clearing it changes nothing, and
/// nothing is released.
pub proof fn law_stop_sending_misses_a_waiting_channel(
    ctx: StreamCtx,
    released: Option<Receiver<OutboundFrame>>,
)
    requires
        ctx.without_recv().releases(released),
    ensures
        ctx.without_recv().stopped().recv == ctx.without_recv().recv,
        ctx.without_recv().stopped().fin_or_reset_sent,
        released is None,
{
}

/// A stream that holds its receiver itself gives it up on STOP_SENDING, together with
/// the frame it had queued, and the channel is closed: every sender of the channel is
/// a sender of the closed one.
pub proof fn law_stop_sending_releases_a_held_channel(
    ctx: StreamCtx,
    rx: Receiver<OutboundFrame>,
    released: Option<Receiver<OutboundFrame>>,
)
    requires
        !ctx.fin_or_reset_sent,
        ctx.recv == Some(rx),
        ctx.releases(released),
    ensures
        ctx.stopped().recv is None,
        ctx.stopped().queued_frame is None,
        ctx.stopped().fin_or_reset_sent,
        released matches Some(after) && receiver_closed(after) && receiver_bound(after)
            == receiver_bound(rx) && forall|tx: Sender<OutboundFrame>|
            linked(tx, rx) <==> #[trigger] linked(tx, after),
{
}

/// The order of wait and STOP_SENDING decides over the channel. Two fresh streams end in
/// the same context either way, but the one that waited first is left with an open
/// channel in its wait, while the one that was stopped first has its channel closed
/// and finds nothing to wait on.
pub proof fn law_order_of_wait_and_stop(
    waits_first: StreamCtx,
    waits_first_tx: Sender<OutboundFrame>,
    waits_first_released: Option<Receiver<OutboundFrame>>,
    stops_first: StreamCtx,
    stops_first_tx: Sender<OutboundFrame>,
    stops_first_released: Option<Receiver<OutboundFrame>>,
    stream_id: u64,
)
    requires
        waits_first.fresh(waits_first_tx),
        waits_first.without_recv().releases(waits_first_released),
        stops_first.fresh(stops_first_tx),
        stops_first.releases(stops_first_released),
    ensures
        waits_first.without_recv().stopped() == stops_first.stopped().without_recv(),
        waits_first_released is None,
        waits_first.wait(stream_id).chan matches Some(rx) && linked(waits_first_tx, rx)
            && !receiver_closed(rx),
        stops_first.stopped().wait(stream_id).chan is None,
        stops_first_released matches Some(rx) && linked(stops_first_tx, rx)
            && receiver_closed(rx),
{
}

/// The sender of a fresh stream sees a STOP_SENDING: what is released is closed, and it is
/// the receiver of that sender's channel.
pub proof fn law_stop_is_seen_by_the_sender(
    ctx: StreamCtx,
    tx: Sender<OutboundFrame>,
    released: Option<Receiver<OutboundFrame>>,
)
    requires
        ctx.fresh(tx),
        ctx.releases(released),
    ensures
        released matches Some(rx) && linked(tx, rx) && receiver_closed(rx),
{
}

/// A STOP_SENDING after the sending half has ended, a repeated one in particular,
/// changes nothing and releases nothing.
pub proof fn law_stop_sending_once(ctx: StreamCtx, released: Option<Receiver<OutboundFrame>>)
    requires
        ctx.stopped().releases(released),
    ensures
        ctx.fin_or_reset_sent ==> ctx.stopped() == ctx,
        ctx.stopped().stopped() == ctx.stopped(),
        released is None,
{
}

/// A stream is opened holding an open channel of sixteen frames that its own sender feeds,
/// with nothing queued and its sending half not ended.
pub proof fn law_fresh_stream_holds_an_open_channel(ctx: StreamCtx, tx: Sender<OutboundFrame>)
    requires
        ctx.fresh(tx),
    ensures
        ctx.recv matches Some(rx) && linked(tx, rx) && !receiver_closed(rx) && receiver_bound(rx)
            == 16,
        holds_open(ctx.recv),
        !ctx.fin_or_reset_sent,
        ctx.queued_frame is None,
{
}

/// An open channel is held exactly where there is a receiver that was not closed.
pub proof fn law_open_means_not_closed(rx: Receiver<OutboundFrame>)
    ensures
        holds_open(Some(rx)) <==> !receiver_closed(rx),
        !holds_open(None),
{
}

/// STOP_SENDING always leaves the sending half ended. Of a stream whose sending half had not
/// ended it leaves nothing to send, whatever the stream held.
pub proof fn law_stop_ends_the_sending_half(ctx: StreamCtx)
    ensures
        ctx.stopped().fin_or_reset_sent,
        !ctx.fin_or_reset_sent ==> ctx.stopped().recv is None && ctx.stopped().queued_frame is None,
        ctx.fin_or_reset_sent ==> ctx.stopped().recv == ctx.recv && ctx.stopped().queued_frame
            == ctx.queued_frame,
{
}

/// The first thing said of a STOP_SENDING is its error code, whether or not the sending half
/// had ended before.
pub proof fn law_stop_sending_names_its_code(wire_err_code: u64, fin_or_reset_sent: bool)
    ensures
        stop_sending_log(wire_err_code, fin_or_reset_sent).len() > 0,
        stop_sending_log(wire_err_code, fin_or_reset_sent)[0]
            == "[Driver] handle_recvd_stop_sending("@ + decimal_text(wire_err_code as nat) + ")"@,
{
}

/// Different codes are told apart by the first line, between any two streams; what follows
/// does not depend on the code.
pub proof fn law_first_line_tells_codes_apart(
    code: u64,
    ended: bool,
    other_code: u64,
    other_ended: bool,
)
    ensures
        stop_sending_log(code, ended)[0] == stop_sending_log(other_code, other_ended)[0] <==> code
            == other_code,
        ended == other_ended ==> stop_sending_log(code, ended).skip(1) == stop_sending_log(
            other_code,
            other_ended,
        ).skip(1),
{
    law_stop_sending_names_its_code(code, ended);
    law_stop_sending_names_its_code(other_code, other_ended);
    if stop_sending_log(code, ended)[0] == stop_sending_log(other_code, other_ended)[0] {
        law_inserted_text_shows(
            "[Driver] handle_recvd_stop_sending("@,
            decimal_text(code as nat),
            decimal_text(other_code as nat),
            ")"@,
        );
        law_decimal_tells_numbers_apart(code as nat, other_code as nat);
    }
    if ended == other_ended {
        assert(stop_sending_log(code, ended).skip(1) =~= stop_sending_log(
            other_code,
            other_ended,
        ).skip(1));
    }
}

/// After the code, the driver says that it returned early exactly if the sending half had
/// ended before, and else that it cleared the receiver and told no wait.
pub proof fn law_stop_sending_tells_what_was_done(wire_err_code: u64, fin_or_reset_sent: bool)
    ensures
        fin_or_reset_sent ==> stop_sending_log(wire_err_code, fin_or_reset_sent).skip(1) == seq![
            "[Driver] Early return: fin_or_reset_sent already true"@,
        ],
        !fin_or_reset_sent ==> stop_sending_log(wire_err_code, fin_or_reset_sent).skip(1) == seq![
            "[Driver] Set self.recv = None (was already None — NO-OP)"@,
            "[Driver] waiting_streams NOT iterated — WaitForDownstreamData not notified"@,
        ],
{
    let log = stop_sending_log(wire_err_code, fin_or_reset_sent).skip(1);
    if fin_or_reset_sent {
        assert(log =~= seq!["[Driver] Early return: fin_or_reset_sent already true"@]);
    } else {
        assert(log =~= seq![
            "[Driver] Set self.recv = None (was already None — NO-OP)"@,
            "[Driver] waiting_streams NOT iterated — WaitForDownstreamData not notified"@,
        ]);
    }
}

} // verus!
