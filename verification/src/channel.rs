//! The bounded channel that carries frames from the application to the driver.

use tokio::sync::mpsc::{Receiver, Sender};
use vstd::prelude::*;

verus! {

/// One frame on its way from the application to the driver.
pub type OutboundFrame = &'static str;

/// The receiving half, [`tokio::sync::mpsc::Receiver`], carried as an opaque value.
#[verifier::external_type_specification]
#[verifier::external_body]
#[verifier::reject_recursive_types(T)]
pub struct ExReceiver<T>(tokio::sync::mpsc::Receiver<T>);

/// The sending half, [`tokio::sync::mpsc::Sender`], carried as an opaque value.
#[verifier::external_type_specification]
#[verifier::external_body]
#[verifier::reject_recursive_types(T)]
pub struct ExSender<T>(tokio::sync::mpsc::Sender<T>);

/// Whether `Receiver::close` has been called on this receiver. Only its owner can call it,
/// so this changes with the receiver alone, whatever the senders do.
pub uninterp spec fn receiver_closed(rx: Receiver<OutboundFrame>) -> bool;

/// The number of frames that the channel of this receiver was made to buffer: what
/// `Receiver::max_capacity` reports, which never changes.
pub uninterp spec fn receiver_bound(rx: Receiver<OutboundFrame>) -> nat;

/// Whether the two halves belong to the same channel, which never changes.
pub uninterp spec fn linked(tx: Sender<OutboundFrame>, rx: Receiver<OutboundFrame>) -> bool;

/// `after` is the receiver `before` with its channel closed: the same channel,
/// with the same senders and the same bound, and no longer open.
pub open spec fn closes(
    before: Receiver<OutboundFrame>,
    after: Receiver<OutboundFrame>,
) -> bool {
    &&& receiver_closed(after)
    &&& receiver_bound(after) == receiver_bound(before)
    &&& forall|tx: Sender<OutboundFrame>| #[trigger]
        linked(tx, after) == linked(tx, before)
}

/// Calls [`tokio::sync::mpsc::channel`], which makes one channel of the given bound
/// and hands out its two halves; nothing has closed it yet. The outside
/// function panics on a bound of zero and on one above `Semaphore::MAX_PERMITS`,
/// which is `usize::MAX >> 3`.
#[verifier::external_body]
pub(crate) fn channel(buffer: usize) -> (r: (Sender<OutboundFrame>, Receiver<OutboundFrame>))
    requires
        0 < buffer <= usize::MAX / 8,
    ensures
        linked(r.0, r.1),
        receiver_bound(r.1) == buffer,
        !receiver_closed(r.1),
{
    tokio::sync::mpsc::channel(buffer)
}

/// Calls [`tokio::sync::mpsc::Receiver::close`], which closes the channel of `rx`
/// and leaves it the same channel.
#[verifier::external_body]
pub(crate) fn close(rx: &mut Receiver<OutboundFrame>)
    ensures
        closes(*old(rx), *final(rx)),
{
    rx.close()
}

/// Calls [`tokio::sync::mpsc::Sender::is_closed`], which is true when the receiver was
/// dropped or closed. `rx` is borrowed for the call: the receiver of the channel
/// is alive, so the answer is whether it has been closed.
#[verifier::external_body]
pub(crate) fn is_closed(tx: &Sender<OutboundFrame>, rx: &Receiver<OutboundFrame>) -> (r: bool)
    requires
        linked(*tx, *rx),
    ensures
        r == receiver_closed(*rx),
{
    let _ = rx;
    tx.is_closed()
}

/// Closing a channel keeps it the same channel: it is closed afterwards, its bound is what it
/// was, and exactly the senders that it had are senders of it still.
pub proof fn law_closed_channel_is_the_same_channel(
    before: Receiver<OutboundFrame>,
    after: Receiver<OutboundFrame>,
    tx: Sender<OutboundFrame>,
)
    requires
        closes(before, after),
    ensures
        receiver_closed(after),
        receiver_bound(after) == receiver_bound(before),
        linked(tx, after) <==> linked(tx, before),
{
}

} // verus!
