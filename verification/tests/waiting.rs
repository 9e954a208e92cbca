use h3_stream_repro::stream::{StreamCtx, WaitForDownstreamData};
use h3_stream_repro::waiting::{
    close_waiting_stream_channel, handle_stream_stopped, WaitForStream, WaitForUpstreamCapacity,
};
use std::time::Duration;
use tokio::sync::mpsc::error::TryRecvError;
use tokio::sync::mpsc::{Receiver, Sender};
use tokio::time::timeout;

fn waiting_stream(stream_id: u64) -> (StreamCtx, WaitForStream, Sender<&'static str>) {
    let (mut ctx, tx) = StreamCtx::new();
    let wait = ctx.wait_for_recv(stream_id);
    (ctx, WaitForStream::Downstream(wait), tx)
}

fn receiver(entry: WaitForStream) -> Receiver<&'static str> {
    match entry {
        WaitForStream::Downstream(wait) => wait.chan.unwrap(),
        WaitForStream::Upstream(_) => panic!("no outbound channel"),
    }
}

#[test]
fn closing_reaches_only_the_channel_of_the_stream() {
    let (_ctx0, entry0, tx0) = waiting_stream(0);
    let (_ctx4, entry4, tx4) = waiting_stream(4);
    let (_ctx8, entry8, tx8) = waiting_stream(8);
    let mut waiting = vec![entry0, entry4, entry8];
    close_waiting_stream_channel(&mut waiting, 4);
    assert!(!tx0.is_closed());
    assert!(tx4.is_closed());
    assert!(!tx8.is_closed());
    assert_eq!(waiting.len(), 3);
    let rx4 = receiver(waiting.remove(1));
    assert!(rx4.is_closed());
    assert_eq!(rx4.max_capacity(), 16);
}

#[test]
fn closing_skips_entries_without_an_outbound_channel() {
    let (_ctx, entry, tx) = waiting_stream(4);
    let empty = WaitForDownstreamData { stream_id: 4, chan: None };
    let mut waiting = vec![
        WaitForStream::Upstream(WaitForUpstreamCapacity { stream_id: 4 }),
        WaitForStream::Downstream(empty),
        entry,
    ];
    close_waiting_stream_channel(&mut waiting, 4);
    assert!(tx.is_closed());
    assert!(matches!(
        waiting[0],
        WaitForStream::Upstream(WaitForUpstreamCapacity { stream_id: 4 })
    ));
    assert!(matches!(
        waiting[1],
        WaitForStream::Downstream(WaitForDownstreamData { stream_id: 4, chan: None })
    ));
}

#[test]
fn closing_stops_at_the_first_channel() {
    let (_a, first, tx_first) = waiting_stream(4);
    let (_b, second, tx_second) = waiting_stream(4);
    let mut waiting = vec![first, second];
    close_waiting_stream_channel(&mut waiting, 4);
    assert!(tx_first.is_closed());
    assert!(!tx_second.is_closed());
}

#[test]
fn closing_finds_nothing_to_do_for_an_unknown_stream() {
    let (_ctx, entry, tx) = waiting_stream(4);
    let mut waiting = vec![entry];
    close_waiting_stream_channel(&mut waiting, 5);
    assert!(!tx.is_closed());
    let mut none: Vec<WaitForStream> = Vec::new();
    close_waiting_stream_channel(&mut none, 4);
    assert!(none.is_empty());
}

#[test]
fn a_stopped_stream_ends_its_wait() {
    let (mut ctx, entry, tx) = waiting_stream(0);
    let mut waiting = vec![entry];
    let mut log = Vec::new();
    handle_stream_stopped(&mut ctx, &mut waiting, 0, 4242, &mut log);
    assert!(ctx.fin_or_reset_sent);
    assert!(tx.is_closed());
    assert_eq!(log[0], "[Driver] handle_recvd_stop_sending(4242)");
    assert_eq!(log.len(), 3);

    let mut rx = receiver(waiting.remove(0));
    let runtime = tokio::runtime::Builder::new_current_thread().enable_time().build().unwrap();
    let result =
        runtime.block_on(async move { timeout(Duration::from_secs(5), rx.recv()).await });
    assert_eq!(result, Ok(None));
}

#[test]
fn frames_sent_before_the_stop_are_still_received() {
    let (mut ctx, entry, tx) = waiting_stream(0);
    tx.try_send("last").unwrap();
    let mut waiting = vec![entry];
    handle_stream_stopped(&mut ctx, &mut waiting, 0, 1, &mut Vec::new());
    assert!(tx.try_send("late").is_err());
    let mut rx = receiver(waiting.remove(0));
    assert_eq!(rx.try_recv(), Ok("last"));
    assert!(matches!(rx.try_recv(), Err(TryRecvError::Disconnected)));
}

#[test]
fn a_stopped_stream_that_does_not_wait_releases_its_own_channel() {
    let (mut ctx, tx) = StreamCtx::new();
    let (_other, entry, tx_other) = waiting_stream(4);
    let mut waiting = vec![entry];
    handle_stream_stopped(&mut ctx, &mut waiting, 0, 4242, &mut Vec::new());
    assert!(tx.is_closed());
    assert!(!tx_other.is_closed());
}

#[test]
fn a_stream_that_ended_before_keeps_the_receiver_it_holds() {
    let (mut ctx, tx) = StreamCtx::new();
    ctx.fin_or_reset_sent = true;
    let (_other, entry, tx_waiting) = waiting_stream(0);
    let mut waiting = vec![entry];
    let mut log = Vec::new();
    handle_stream_stopped(&mut ctx, &mut waiting, 0, 4242, &mut log);
    assert!(ctx.recv.is_some());
    assert!(!tx.is_closed());
    assert!(!tx_waiting.is_closed());
    assert_eq!(log[1], "[Driver] Early return: fin_or_reset_sent already true");
}

#[test]
fn a_stream_that_ended_while_waiting_has_its_wait_ended() {
    let (mut ctx, entry, tx) = waiting_stream(0);
    ctx.fin_or_reset_sent = true;
    let mut waiting = vec![entry];
    handle_stream_stopped(&mut ctx, &mut waiting, 0, 4242, &mut Vec::new());
    assert!(tx.is_closed());
}
