use h3_stream_repro::stream::{StreamCtx, CHANNEL_BOUND};
use tokio::sync::mpsc::error::{TryRecvError, TrySendError};

#[test]
fn a_new_stream_holds_an_open_channel_of_sixteen_frames() {
    let (ctx, tx) = StreamCtx::new();
    assert!(ctx.recv.is_some());
    assert!(!ctx.fin_or_reset_sent);
    assert_eq!(ctx.queued_frame, None);
    assert!(!tx.is_closed());
    assert_eq!(CHANNEL_BOUND, 16);
    assert_eq!(tx.max_capacity(), 16);
    for _ in 0..16 {
        tx.try_send("frame").unwrap();
    }
    assert!(matches!(tx.try_send("frame"), Err(TrySendError::Full("frame"))));
}

#[test]
fn waiting_moves_the_receiver_out_of_the_context() {
    let (mut ctx, tx) = StreamCtx::new();
    ctx.queued_frame = Some("queued");
    let waiting = ctx.wait_for_recv(7);
    assert_eq!(waiting.stream_id, 7);
    assert!(ctx.recv.is_none());
    assert!(!ctx.fin_or_reset_sent);
    assert_eq!(ctx.queued_frame, Some("queued"));

    let mut rx = waiting.chan.unwrap();
    assert!(matches!(rx.try_recv(), Err(TryRecvError::Empty)));
    tx.try_send("one").unwrap();
    tx.try_send("two").unwrap();
    assert_eq!(rx.try_recv(), Ok("one"));
    assert_eq!(rx.try_recv(), Ok("two"));
}

#[test]
fn a_second_wait_finds_no_receiver() {
    let (mut ctx, _tx) = StreamCtx::new();
    let first = ctx.wait_for_recv(0);
    let second = ctx.wait_for_recv(0);
    assert!(first.chan.is_some());
    assert!(second.chan.is_none());
}

#[test]
fn stop_sending_releases_a_channel_that_the_context_holds() {
    let (mut ctx, tx) = StreamCtx::new();
    ctx.queued_frame = Some("queued");
    let mut log = Vec::new();
    ctx.handle_recvd_stop_sending(4242, &mut log);
    assert!(ctx.fin_or_reset_sent);
    assert!(ctx.recv.is_none());
    assert_eq!(ctx.queued_frame, None);
    assert!(tx.is_closed());
    assert!(matches!(tx.try_send("x"), Err(TrySendError::Closed("x"))));
    assert_eq!(
        log,
        vec![
            "[Driver] handle_recvd_stop_sending(4242)",
            "[Driver] Set self.recv = None (was already None — NO-OP)",
            "[Driver] waiting_streams NOT iterated — WaitForDownstreamData not notified",
        ]
    );
}

#[test]
fn stop_sending_does_not_reach_a_waiting_channel() {
    let (mut ctx, tx) = StreamCtx::new();
    let waiting = ctx.wait_for_recv(0);
    let mut log = Vec::new();
    ctx.handle_recvd_stop_sending(4242, &mut log);
    assert!(ctx.fin_or_reset_sent);
    assert!(!tx.is_closed());
    let mut rx = waiting.chan.unwrap();
    assert!(matches!(rx.try_recv(), Err(TryRecvError::Empty)));
}

#[test]
fn stop_sending_after_the_end_changes_nothing() {
    let (mut ctx, tx) = StreamCtx::new();
    ctx.fin_or_reset_sent = true;
    ctx.queued_frame = Some("queued");
    let mut log = vec!["before".to_string()];
    ctx.handle_recvd_stop_sending(0, &mut log);
    assert!(ctx.fin_or_reset_sent);
    assert!(ctx.recv.is_some());
    assert_eq!(ctx.queued_frame, Some("queued"));
    assert!(!tx.is_closed());
    assert_eq!(
        log,
        vec![
            "before",
            "[Driver] handle_recvd_stop_sending(0)",
            "[Driver] Early return: fin_or_reset_sent already true",
        ]
    );
}

#[test]
fn a_repeated_stop_sending_returns_early() {
    let (mut ctx, _tx) = StreamCtx::new();
    let mut log = Vec::new();
    ctx.handle_recvd_stop_sending(1, &mut log);
    ctx.handle_recvd_stop_sending(2, &mut log);
    assert_eq!(log.len(), 5);
    assert_eq!(log[3], "[Driver] handle_recvd_stop_sending(2)");
    assert_eq!(log[4], "[Driver] Early return: fin_or_reset_sent already true");
    assert!(ctx.recv.is_none());
}

#[test]
fn the_order_of_wait_and_stop_decides_over_the_channel() {
    let mut log = Vec::new();
    let (mut c1, tx1) = StreamCtx::new();
    let w1 = c1.wait_for_recv(8);
    c1.handle_recvd_stop_sending(4242, &mut log);
    let (mut c2, tx2) = StreamCtx::new();
    c2.handle_recvd_stop_sending(4242, &mut log);
    let w2 = c2.wait_for_recv(8);

    assert!(c1.recv.is_none() && c2.recv.is_none());
    assert!(c1.fin_or_reset_sent && c2.fin_or_reset_sent);
    assert_eq!((c1.queued_frame, c2.queued_frame), (None, None));
    assert_eq!((w1.stream_id, w2.stream_id), (8, 8));
    assert!(w1.chan.is_some());
    assert!(!tx1.is_closed());
    assert!(w2.chan.is_none());
    assert!(tx2.is_closed());
}

#[test]
fn two_streams_are_independent() {
    let mut log = Vec::new();
    let (mut c1, tx1) = StreamCtx::new();
    let (mut c2, tx2) = StreamCtx::new();
    tx1.try_send("one").unwrap();
    assert!(matches!(c2.recv.as_mut().unwrap().try_recv(), Err(TryRecvError::Empty)));
    c1.handle_recvd_stop_sending(4242, &mut log);
    assert!(tx1.is_closed());
    assert!(!tx2.is_closed());
    assert!(!c2.fin_or_reset_sent);
    tx2.try_send("two").unwrap();
    assert_eq!(c2.recv.as_mut().unwrap().try_recv(), Ok("two"));
}

#[test]
fn stop_sending_drops_the_frames_of_a_held_channel() {
    let (mut ctx, tx) = StreamCtx::new();
    tx.try_send("one").unwrap();
    tx.try_send("two").unwrap();
    assert_eq!(tx.capacity(), 14);
    let _stopped = ctx.handle_recvd_stop_sending(4242, &mut Vec::new());
    assert!(tx.is_closed());
    assert_eq!(tx.capacity(), 16);
}
