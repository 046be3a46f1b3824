use lib::buffer::Buffer;
use lib::error::SendError;

#[test]
fn new_buffer_is_empty() {
    let mut b: Buffer<i32> = Buffer::new(4);
    assert_eq!(b.capacity(), 4);
    assert_eq!(b.pop(), None);
}

#[test]
fn push_then_pop_round_trip() {
    let mut b = Buffer::new(3);
    assert!(b.push(7).is_ok());
    assert_eq!(b.pop(), Some(7));
    assert_eq!(b.pop(), None);
}

#[test]
fn items_come_out_in_the_order_written() {
    let mut b = Buffer::new(1000);
    for i in 0..1000 {
        assert!(b.push(i).is_ok());
    }
    for i in 0..1000 {
        assert_eq!(b.pop(), Some(i));
    }
    assert_eq!(b.pop(), None);
}

#[test]
fn fresh_buffer_takes_exactly_capacity_items() {
    let mut b = Buffer::new(3);
    assert!(b.push(1).is_ok());
    assert!(b.push(2).is_ok());
    assert!(b.push(3).is_ok());
    match b.push(4) {
        Err(SendError(v)) => assert_eq!(v, 4),
        Ok(()) => panic!("a full buffer accepted a value"),
    }
    assert_eq!(b.pop(), Some(1));
    assert_eq!(b.pop(), Some(2));
    assert_eq!(b.pop(), Some(3));
    assert_eq!(b.pop(), None);
}

#[test]
fn refused_value_is_handed_back_and_buffer_kept() {
    let mut b = Buffer::new(1);
    assert!(b.push(String::from("first")).is_ok());
    match b.push(String::from("second")) {
        Err(SendError(v)) => assert_eq!(v, "second"),
        Ok(()) => panic!("a full buffer accepted a value"),
    }
    assert_eq!(b.pop(), Some(String::from("first")));
    assert_eq!(b.pop(), None);
}

#[test]
fn freed_slots_are_reused_going_round() {
    let mut b = Buffer::new(3);
    assert!(b.push(1).is_ok());
    assert!(b.push(2).is_ok());
    assert!(b.push(3).is_ok());
    assert_eq!(b.pop(), Some(1));
    assert!(b.push(4).is_ok());
    assert!(b.push(5).is_err());
    assert_eq!(b.pop(), Some(2));
    assert_eq!(b.pop(), Some(3));
    assert_eq!(b.pop(), Some(4));
    assert_eq!(b.pop(), None);
}

#[test]
fn write_refused_only_when_every_slot_is_taken() {
    let mut b = Buffer::new(2);
    assert!(b.push(1).is_ok());
    assert!(b.push(2).is_ok());
    assert_eq!(b.pop(), Some(1));
    assert!(b.push(3).is_ok());
    assert!(b.push(4).is_err());
    assert_eq!(b.pop(), Some(2));
    assert_eq!(b.pop(), Some(3));
}

#[test]
fn thousand_slot_ring_keeps_order_over_many_rounds() {
    let mut b = Buffer::new(1000);
    for i in 0..1000 {
        assert!(b.push(i).is_ok());
    }
    assert_eq!(b.pop(), Some(0));
    assert!(b.push(1000).is_ok());
    let mut next_out = 1;
    let mut next_in = 1001;
    for _ in 0..5000 {
        assert_eq!(b.pop(), Some(next_out));
        next_out += 1;
        assert!(b.push(next_in).is_ok());
        next_in += 1;
    }
    while let Some(v) = b.pop() {
        assert_eq!(v, next_out);
        next_out += 1;
    }
    assert_eq!(next_out, next_in);
}

#[test]
fn writing_goes_on_after_everything_is_read() {
    let mut b = Buffer::new(2);
    for round in 0..10 {
        assert!(b.push(round).is_ok());
        assert_eq!(b.pop(), Some(round));
        assert_eq!(b.pop(), None);
    }
    for i in 0..5 {
        assert!(b.push(i).is_ok());
        assert_eq!(b.pop(), Some(i));
    }
}

#[test]
fn zero_capacity_buffer_has_no_slots() {
    let b: Buffer<u8> = Buffer::new(0);
    assert_eq!(b.capacity(), 0);
}
