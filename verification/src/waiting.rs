//! The driver's list of waiting streams, and what a stopped stream has to do
//! there so that its wait ends.

use crate::channel::{close, closes, linked, receiver_bound, receiver_closed, OutboundFrame};
use crate::stream::{holds_open, stop_sending_log, StreamCtx, WaitForDownstreamData};
use crate::text::texts;
use tokio::sync::mpsc::{Receiver, Sender};
use vstd::prelude::*;

verus! {

/// A stream that waits for room to hand a received frame to the application.
pub struct WaitForUpstreamCapacity {
    /// The stream that waits.
    pub stream_id: u64,
}

/// One entry of the driver's list of waiting streams.
pub enum WaitForStream {
    /// Waits for the application to send.
    Downstream(WaitForDownstreamData),
    /// Waits for the application to receive.
    Upstream(WaitForUpstreamCapacity),
}

impl WaitForStream {
    /// Whether this entry holds the outbound channel of the given stream.
    pub open spec fn holds(self, stream_id: u64) -> bool {
        self matches WaitForStream::Downstream(wait) && wait.stream_id == stream_id
            && wait.chan is Some
    }

    /// Whether this entry holds the outbound channel of the given stream, and that
    /// channel is open: the wait cannot end before the application acts.
    pub open spec fn holds_open(self, stream_id: u64) -> bool {
        self matches WaitForStream::Downstream(wait) && wait.stream_id == stream_id
            && holds_open(wait.chan)
    }

    /// `after` is this entry with its channel closed.
    pub open spec fn closed_into(self, after: WaitForStream) -> bool {
        &&& self matches WaitForStream::Downstream(wait)
        &&& after matches WaitForStream::Downstream(ended)
        &&& wait.stream_id == ended.stream_id
        &&& wait.chan matches Some(rx)
        &&& ended.chan matches Some(rx_after)
        &&& closes(rx, rx_after)
    }
}

/// Whether entry `i` is the first that holds the outbound channel of the stream.
pub open spec fn first_holder(waiting: Seq<WaitForStream>, stream_id: u64, i: int) -> bool {
    &&& 0 <= i < waiting.len()
    &&& waiting[i].holds(stream_id)
    &&& forall|j: int| 0 <= j < i ==> !(#[trigger] waiting[j]).holds(stream_id)
}

/// `after` is the list `before` in which the first entry that holds the outbound
/// channel of the stream has had that channel closed; every other entry is as it was.
pub open spec fn first_closed(
    before: Seq<WaitForStream>,
    after: Seq<WaitForStream>,
    stream_id: u64,
) -> bool {
    &&& after.len() == before.len()
    &&& forall|i: int|
        #![trigger before[i]]
        #![trigger after[i]]
        0 <= i < before.len() ==> if first_holder(before, stream_id, i) {
            before[i].closed_into(after[i])
        } else {
            after[i] == before[i]
        }
}

/// Closes the outbound channel of a waiting stream, so that its wait ends. Only the
/// first entry that holds a channel of the stream is touched.
pub fn close_waiting_stream_channel(waiting: &mut Vec<WaitForStream>, stream_id: u64)
    ensures
        first_closed(old(waiting)@, final(waiting)@, stream_id),
{
    let mut i: usize = 0;
    while i < waiting.len()
        invariant
            i <= waiting.len(),
            waiting@ == old(waiting)@,
            forall|j: int| 0 <= j < i ==> !(#[trigger] waiting@[j]).holds(stream_id),
        decreases waiting.len() - i,
    {
        match &mut waiting[i] {
            WaitForStream::Downstream(WaitForDownstreamData { stream_id: id, chan: Some(chan) }) => {
                if *id == stream_id {
                    close(chan);
                    return;
                }
            },
            _ => {},
        }
        i += 1;
    }
}

/// What becomes of the waiting list when the given stream is stopped: if the stream's
/// context is left without the receiver, the list is searched for it, else the
/// list stays as it is.
pub open spec fn stopped_waiting(
    ctx: StreamCtx,
    before: Seq<WaitForStream>,
    after: Seq<WaitForStream>,
    stream_id: u64,
) -> bool {
    if ctx.stopped().recv is None {
        first_closed(before, after, stream_id)
    } else {
        after == before
    }
}

/// Handles a write that the peer answered with STOP_SENDING: the stream's context is
/// told, and if it has no receiver (any more), the channel of a waiting entry of the
/// stream is closed. A receiver that the context held is closed and dropped; the ghost
/// result is that receiver as it was dropped. The log is what the context's handler says,
/// before the list is searched.
pub fn handle_stream_stopped(
    ctx: &mut StreamCtx,
    waiting: &mut Vec<WaitForStream>,
    stream_id: u64,
    wire_err_code: u64,
    log: &mut Vec<String>,
) -> (released: Ghost<Option<Receiver<OutboundFrame>>>)
    ensures
        *final(ctx) == old(ctx).stopped(),
        old(ctx).releases(released@),
        stopped_waiting(*old(ctx), old(waiting)@, final(waiting)@, stream_id),
        texts(final(log)@) == texts(old(log)@) + stop_sending_log(
            wire_err_code,
            old(ctx).fin_or_reset_sent,
        ),
{
    let released = ctx.handle_recvd_stop_sending(wire_err_code, log);
    if ctx.recv.is_none() {
        close_waiting_stream_channel(waiting, stream_id);
    }
    released
}

/// The outbound channel of the stream has at most one holder: its context, or one
/// entry of the waiting list.
pub open spec fn one_holder(ctx: StreamCtx, waiting: Seq<WaitForStream>, stream_id: u64) -> bool {
    &&& forall|i: int, j: int|
        0 <= i < waiting.len() && 0 <= j < waiting.len() && (#[trigger] waiting[i]).holds(stream_id)
            && (#[trigger] waiting[j]).holds(stream_id) ==> i == j
    &&& ctx.recv is Some ==> forall|i: int|
        0 <= i < waiting.len() ==> !(#[trigger] waiting[i]).holds(stream_id)
}

/// A stream that begins to wait keeps the single holder of its channel, and that of
/// every other stream's channel.
pub proof fn law_wait_keeps_one_holder(
    ctx: StreamCtx,
    waiting: Seq<WaitForStream>,
    stream_id: u64,
    other_ctx: StreamCtx,
    other_id: u64,
)
    requires
        one_holder(ctx, waiting, stream_id),
        one_holder(other_ctx, waiting, other_id),
        other_id != stream_id,
    ensures
        one_holder(
            ctx.without_recv(),
            waiting.push(WaitForStream::Downstream(ctx.wait(stream_id))),
            stream_id,
        ),
        one_holder(
            other_ctx,
            waiting.push(WaitForStream::Downstream(ctx.wait(stream_id))),
            other_id,
        ),
{
}

/// Stopping a stream keeps the single holder of every channel.
pub proof fn law_stop_keeps_one_holder(
    ctx: StreamCtx,
    before: Seq<WaitForStream>,
    after: Seq<WaitForStream>,
    stream_id: u64,
    other_ctx: StreamCtx,
    other_id: u64,
)
    requires
        one_holder(ctx, before, stream_id),
        one_holder(other_ctx, before, other_id),
        other_id != stream_id,
        stopped_waiting(ctx, before, after, stream_id),
    ensures
        one_holder(ctx.stopped(), after, stream_id),
        one_holder(other_ctx, after, other_id),
{
    assert forall|i: int, id: u64| 0 <= i < after.len() implies (#[trigger] after[i]).holds(id)
        == #[trigger] before[i].holds(id) by {}
}

/// No wait of a stopped stream is left on an open channel, so none is left to hang.
pub proof fn law_stopped_stream_waits_on_no_open_channel(
    ctx: StreamCtx,
    before: Seq<WaitForStream>,
    after: Seq<WaitForStream>,
    stream_id: u64,
)
    requires
        one_holder(ctx, before, stream_id),
        stopped_waiting(ctx, before, after, stream_id),
    ensures
        forall|i: int| 0 <= i < after.len() ==> !(#[trigger] after[i]).holds_open(stream_id),
{
    assert forall|i: int| 0 <= i < after.len() implies !(#[trigger] after[i]).holds_open(
        stream_id,
    ) by {
        if before[i].holds(stream_id) && ctx.stopped().recv is None {
            assert(first_holder(before, stream_id, i));
        }
    }
}

/// Stopping one stream leaves every entry as it was that does not hold a channel of that
/// stream, the waits of all other streams in particular.
pub proof fn law_stop_spares_other_streams(
    ctx: StreamCtx,
    before: Seq<WaitForStream>,
    after: Seq<WaitForStream>,
    stream_id: u64,
    i: int,
)
    requires
        stopped_waiting(ctx, before, after, stream_id),
        0 <= i < before.len(),
        !before[i].holds(stream_id),
    ensures
        after.len() == before.len(),
        after[i] == before[i],
{
}

/// The way out of the deadlock: a stream that waits on an open channel when it is
/// stopped has that channel closed, and every sender of the channel sees it.
pub proof fn law_stop_ends_the_wait(
    ctx: StreamCtx,
    waiting: Seq<WaitForStream>,
    after: Seq<WaitForStream>,
    stream_id: u64,
)
    requires
        one_holder(ctx, waiting, stream_id),
        ctx.recv is Some,
        stopped_waiting(
            ctx.without_recv(),
            waiting.push(WaitForStream::Downstream(ctx.wait(stream_id))),
            after,
            stream_id,
        ),
    ensures
        after.len() == waiting.len() + 1,
        WaitForStream::Downstream(ctx.wait(stream_id)).closed_into(after.last()),
        forall|i: int| 0 <= i < waiting.len() ==> #[trigger] after[i] == waiting[i],
{
    let list = waiting.push(WaitForStream::Downstream(ctx.wait(stream_id)));
    assert(first_holder(list, stream_id, waiting.len() as int));
    assert forall|i: int| 0 <= i < waiting.len() implies #[trigger] after[i] == waiting[i] by {
        assert(!list[i].holds(stream_id));
    }
}

/// STOP_SENDING closes the channel of a stream whose sending half had not ended, wherever
/// its receiver was: one that the context held is released closed, and one that a wait
/// held is closed there. No holder is left with an open channel of the stream.
pub proof fn law_stop_closes_the_channel(
    ctx: StreamCtx,
    before: Seq<WaitForStream>,
    after: Seq<WaitForStream>,
    released: Option<Receiver<OutboundFrame>>,
    stream_id: u64,
)
    requires
        !ctx.fin_or_reset_sent,
        one_holder(ctx, before, stream_id),
        ctx.releases(released),
        stopped_waiting(ctx, before, after, stream_id),
    ensures
        ctx.recv matches Some(rx) ==> released matches Some(rx_after) && closes(rx, rx_after),
        forall|i: int|
            0 <= i < before.len() && (#[trigger] before[i]).holds(stream_id)
                ==> before[i].closed_into(after[i]),
        ctx.stopped().recv is None,
        !holds_open(released),
        forall|i: int| 0 <= i < after.len() ==> !(#[trigger] after[i]).holds_open(stream_id),
{
    assert forall|i: int|
        0 <= i < before.len() && (#[trigger] before[i]).holds(
            stream_id,
        ) implies before[i].closed_into(after[i]) by {
        assert(first_holder(before, stream_id, i));
    }
    law_stopped_stream_waits_on_no_open_channel(ctx, before, after, stream_id);
}

/// Waiting streams are independent: stopping one leaves another, opened on a channel of its
/// own, with an open channel in its wait, linked to the same sender.
pub proof fn law_waiting_streams_are_independent(
    ctx: StreamCtx,
    before: Seq<WaitForStream>,
    after: Seq<WaitForStream>,
    stream_id: u64,
    other_ctx: StreamCtx,
    other_tx: Sender<OutboundFrame>,
    other_id: u64,
    i: int,
)
    requires
        stopped_waiting(ctx, before, after, stream_id),
        other_id != stream_id,
        other_ctx.fresh(other_tx),
        0 <= i < before.len(),
        before[i] == WaitForStream::Downstream(other_ctx.wait(other_id)),
    ensures
        after[i].holds_open(other_id),
        after[i] matches WaitForStream::Downstream(wait) && wait.chan matches Some(rx) && linked(
            other_tx,
            rx,
        ),
{
    law_stop_spares_other_streams(ctx, before, after, stream_id, i);
}

/// An entry holds the outbound channel of a stream exactly if it is the wait for outbound
/// data of that very stream and has a receiver, and holds it open exactly if that
/// receiver was not closed.
pub proof fn law_holding_a_channel(entry: WaitForStream, stream_id: u64)
    ensures
        entry.holds(stream_id) <==> (exists|wait: WaitForDownstreamData|
            entry == WaitForStream::Downstream(wait) && wait.stream_id == stream_id
                && wait.chan is Some),
        entry.holds_open(stream_id) <==> (entry.holds(stream_id) && (entry matches
            WaitForStream::Downstream(wait) && wait.chan matches Some(rx) && !receiver_closed(rx))),
{
    if let WaitForStream::Downstream(wait) = entry {
        assert(entry == WaitForStream::Downstream(wait));
    }
}

/// An entry whose channel was closed is the wait of the same stream, on the same channel,
/// which is closed: its bound and its senders are what they were.
pub proof fn law_closed_entry_keeps_its_channel(
    wait: WaitForDownstreamData,
    rx: Receiver<OutboundFrame>,
    after: WaitForStream,
    tx: Sender<OutboundFrame>,
)
    requires
        wait.chan == Some(rx),
        WaitForStream::Downstream(wait).closed_into(after),
    ensures
        ({
            &&& after matches WaitForStream::Downstream(ended)
            &&& ended.stream_id == wait.stream_id
            &&& ended.chan matches Some(rx_after)
            &&& receiver_closed(rx_after)
            &&& receiver_bound(rx_after) == receiver_bound(rx)
            &&& linked(tx, rx_after) <==> linked(tx, rx)
        }),
{
}

/// Closing reaches the channel of a stream wherever in the list it is and whatever stands
/// before it: if entry `k` alone holds a channel of the stream, that channel is closed
/// afterwards, in the same place and seen by the same senders, every other entry is as it
/// was, and no entry is left with an open channel of the stream.
pub proof fn law_closing_reaches_the_only_holder(
    before: Seq<WaitForStream>,
    after: Seq<WaitForStream>,
    stream_id: u64,
    k: int,
    wait: WaitForDownstreamData,
    rx: Receiver<OutboundFrame>,
)
    requires
        first_closed(before, after, stream_id),
        0 <= k < before.len(),
        before[k] == WaitForStream::Downstream(wait),
        wait.stream_id == stream_id,
        wait.chan == Some(rx),
        forall|j: int|
            0 <= j < before.len() && j != k ==> !((#[trigger] before[j]) matches
                WaitForStream::Downstream(w) && w.stream_id == stream_id && w.chan is Some),
    ensures
        after.len() == before.len(),
        ({
            &&& after[k] matches WaitForStream::Downstream(ended)
            &&& ended.stream_id == stream_id
            &&& ended.chan matches Some(rx_after)
            &&& receiver_closed(rx_after)
            &&& receiver_bound(rx_after) == receiver_bound(rx)
            &&& forall|tx: Sender<OutboundFrame>|
                linked(tx, rx) <==> #[trigger] linked(tx, rx_after)
        }),
        forall|j: int| 0 <= j < before.len() && j != k ==> #[trigger] after[j] == before[j],
        forall|j: int|
            0 <= j < after.len() ==> match #[trigger] after[j] {
                WaitForStream::Downstream(w) => match w.chan {
                    Some(r) => w.stream_id == stream_id ==> receiver_closed(r),
                    None => true,
                },
                WaitForStream::Upstream(_) => true,
            },
{
    assert(first_holder(before, stream_id, k));
    assert forall|j: int| 0 <= j < before.len() && j != k implies #[trigger] after[j]
        == before[j] by {
        assert(!before[j].holds(stream_id));
    }
}

/// Where several entries hold a channel of the stream, the first of them is closed, and only
/// that one.
pub proof fn law_closing_stops_at_the_first_holder(
    before: Seq<WaitForStream>,
    after: Seq<WaitForStream>,
    stream_id: u64,
    k: int,
)
    requires
        first_closed(before, after, stream_id),
        0 <= k < before.len(),
        before[k].holds(stream_id),
        forall|j: int| 0 <= j < k ==> !(#[trigger] before[j]).holds(stream_id),
    ensures
        before[k].closed_into(after[k]),
        after == before.update(k, after[k]),
{
    assert(first_holder(before, stream_id, k));
    assert forall|j: int| 0 <= j < before.len() && j != k implies #[trigger] after[j]
        == before[j] by {
        assert(!first_holder(before, stream_id, j));
    }
    assert(after =~= before.update(k, after[k]));
}

/// Closing leaves a list alone in which no entry holds a channel of the stream.
pub proof fn law_closing_without_a_holder_changes_nothing(
    before: Seq<WaitForStream>,
    after: Seq<WaitForStream>,
    stream_id: u64,
)
    requires
        first_closed(before, after, stream_id),
        forall|j: int| 0 <= j < before.len() ==> !(#[trigger] before[j]).holds(stream_id),
    ensures
        after == before,
{
    assert(after =~= before);
}

/// An entry that does not hold a channel of the stream does not matter to the search: with it
/// put in front, the same entries are closed as without it.
pub proof fn law_closing_passes_over_other_entries(
    entry: WaitForStream,
    before: Seq<WaitForStream>,
    after: Seq<WaitForStream>,
    stream_id: u64,
)
    requires
        !entry.holds(stream_id),
    ensures
        first_closed(before, after, stream_id) <==> first_closed(
            seq![entry] + before,
            seq![entry] + after,
            stream_id,
        ),
{
    let b = seq![entry] + before;
    let a = seq![entry] + after;
    assert forall|i: int| 0 <= i < before.len() implies first_holder(before, stream_id, i)
        == #[trigger] first_holder(b, stream_id, i + 1) by {
        assert(b[i + 1] == before[i]);
        if first_holder(b, stream_id, i + 1) {
            assert forall|j: int| 0 <= j < i implies !(#[trigger] before[j]).holds(stream_id) by {
                assert(!b[j + 1].holds(stream_id));
            }
        }
        if first_holder(before, stream_id, i) {
            assert forall|j: int| 0 <= j < i + 1 implies !(#[trigger] b[j]).holds(stream_id) by {
                if j > 0 {
                    assert(b[j] == before[j - 1]);
                }
            }
        }
    }
    if first_closed(before, after, stream_id) {
        assert forall|i: int| 0 <= i < b.len() implies if first_holder(b, stream_id, i) {
            b[i].closed_into(#[trigger] a[i])
        } else {
            a[i] == #[trigger] b[i]
        } by {
            if i > 0 {
                assert(b[i] == before[i - 1] && a[i] == after[i - 1]);
                assert(first_holder(before, stream_id, i - 1) == first_holder(
                    b,
                    stream_id,
                    (i - 1) + 1,
                ));
            }
        }
    }
    if first_closed(b, a, stream_id) {
        assert forall|i: int| 0 <= i < before.len() implies if first_holder(before, stream_id, i) {
            before[i].closed_into(#[trigger] after[i])
        } else {
            after[i] == #[trigger] before[i]
        } by {
            assert(b[i + 1] == before[i] && a[i + 1] == after[i]);
            assert(first_holder(before, stream_id, i) == first_holder(b, stream_id, i + 1));
        }
    }
}

/// A stopped stream has the list searched exactly if its context is left without the
/// receiver: it had none, or its sending half had not ended. Else the list is left alone.
pub proof fn law_stop_searches_for_a_missing_receiver(
    ctx: StreamCtx,
    before: Seq<WaitForStream>,
    after: Seq<WaitForStream>,
    stream_id: u64,
)
    ensures
        ctx.recv is None || !ctx.fin_or_reset_sent ==> (stopped_waiting(
            ctx,
            before,
            after,
            stream_id,
        ) <==> first_closed(before, after, stream_id)),
        ctx.recv is Some && ctx.fin_or_reset_sent ==> (stopped_waiting(
            ctx,
            before,
            after,
            stream_id,
        ) <==> after == before),
{
}

/// At most one holder means: never two entries, and never an entry beside the context.
pub proof fn law_one_holder_means_one(
    ctx: StreamCtx,
    waiting: Seq<WaitForStream>,
    stream_id: u64,
    i: int,
    j: int,
)
    requires
        one_holder(ctx, waiting, stream_id),
        0 <= i < waiting.len(),
        0 <= j < waiting.len(),
        waiting[i].holds(stream_id),
        waiting[j].holds(stream_id),
    ensures
        i == j,
        ctx.recv is None,
{
}

} // verus!
