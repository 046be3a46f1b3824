use lib::channel::{
    after_recv_attempt, after_send_attempt, channel, next_backoff, next_outcome, recv_outcome,
    RecvStep, SendStep, CAPACITY,
    INITIAL_BACKOFF_MS, MAX_BACKOFF_MS,
};
use lib::error::SendError;
use lib::peterson::{flag_lets_in, turn_lets_in, yield_turn, Side};

#[test]
fn channel_buffer_has_capacity_1000() {
    let (px, cx) = channel::<i32>();
    assert_eq!(CAPACITY, 1000);
    assert_eq!(px.buffer().capacity(), 1000);
    assert_eq!(cx.buffer().capacity(), 1000);
    assert!(!px.access_flags().is_done());
}

#[test]
fn dropping_one_half_tells_the_other() {
    let (px, cx) = channel::<i32>();
    assert!(!cx.access_flags().is_done());
    drop(px);
    assert!(cx.access_flags().is_done());

    let (px, cx) = channel::<i32>();
    drop(cx);
    assert!(px.access_flags().is_done());
}

#[test]
fn lone_party_enters_at_once() {
    let (px, _cx) = channel::<i32>();
    let flags = px.access_flags();
    flags.request(Side::Producer);
    assert!(flags.may_enter(Side::Producer).go);
    flags.leave(Side::Producer);
    flags.request(Side::Consumer);
    assert!(flags.may_enter(Side::Consumer).go);
    flags.leave(Side::Consumer);
}

#[test]
fn second_requester_waits_for_the_first() {
    let (px, _cx) = channel::<i32>();
    let flags = px.access_flags();
    flags.request(Side::Producer);
    flags.request(Side::Consumer);
    // The consumer handed the turn over last, so it waits.
    assert!(flags.may_enter(Side::Producer).go);
    assert!(!flags.may_enter(Side::Consumer).go);
    flags.leave(Side::Producer);
    assert!(flags.may_enter(Side::Consumer).go);
    flags.leave(Side::Consumer);
}

#[test]
fn entry_check_reports_what_it_read() {
    let (px, _cx) = channel::<i32>();
    let flags = px.access_flags();
    flags.request(Side::Producer);
    flags.request(Side::Consumer);
    let c = flags.may_enter(Side::Consumer);
    assert_eq!(c.turn_seen, 0);
    assert_eq!(c.other_seen, Some(true));
    assert!(!c.go);
    let p = flags.may_enter(Side::Producer);
    assert_eq!(p.turn_seen, 0);
    assert_eq!(p.other_seen, None);
    assert!(p.go);
}

#[test]
fn entry_decisions() {
    assert!(turn_lets_in(Side::Producer, 0));
    assert!(!turn_lets_in(Side::Producer, 1));
    assert!(turn_lets_in(Side::Consumer, 1));
    assert!(!turn_lets_in(Side::Consumer, 0));
    assert!(flag_lets_in(false));
    assert!(!flag_lets_in(true));
}

#[test]
fn yield_turn_values() {
    assert_eq!(yield_turn(Side::Producer), 1);
    assert_eq!(yield_turn(Side::Consumer), 0);
}

#[test]
fn send_step_decisions() {
    assert_eq!(after_send_attempt::<i32>(Ok(()), false), SendStep::Sent);
    assert_eq!(after_send_attempt::<i32>(Ok(()), true), SendStep::Sent);
    assert_eq!(after_send_attempt(Err(SendError(5)), false), SendStep::Retry(5));
    assert_eq!(after_send_attempt(Err(SendError(5)), true), SendStep::Closed(5));
}

#[test]
fn recv_step_decisions() {
    assert_eq!(after_recv_attempt(Some(3), false), RecvStep::Received(3));
    assert_eq!(after_recv_attempt(Some(3), true), RecvStep::Received(3));
    assert_eq!(after_recv_attempt::<i32>(None, false), RecvStep::Retry);
    assert_eq!(after_recv_attempt::<i32>(None, true), RecvStep::Closed);
}

#[test]
fn receive_outcomes() {
    assert_eq!(recv_outcome(RecvStep::Received(4)).map(|r| r.ok()), Some(Some(4)));
    assert!(matches!(recv_outcome::<i32>(RecvStep::Closed), Some(Err(_))));
    assert!(recv_outcome::<i32>(RecvStep::Retry).is_none());
    assert_eq!(next_outcome(RecvStep::Received(4)), Some(Some(4)));
    assert_eq!(next_outcome::<i32>(RecvStep::Closed), Some(None));
    assert_eq!(next_outcome::<i32>(RecvStep::Retry), None);
}

#[test]
fn backoff_doubles_up_to_100_ms() {
    let mut b = INITIAL_BACKOFF_MS;
    let mut seen = vec![b];
    for _ in 0..9 {
        b = next_backoff(b);
        seen.push(b);
    }
    assert_eq!(seen, vec![1, 2, 4, 8, 16, 32, 64, 100, 100, 100]);
    assert_eq!(MAX_BACKOFF_MS, 100);
    assert_eq!(next_backoff(60), 100);
    assert_eq!(next_backoff(50), 100);
    assert_eq!(next_backoff(0), 0);
}
