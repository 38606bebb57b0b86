use std::rc::Rc;

use atomics::channels::{
    holds_unclaimed, receive_transition, send_transition, ChannelError, OneShotChannel, DONE,
    EMPTY, READY, WRITING,
};

#[test]
fn channels_single_thread() {
    let mut channel = OneShotChannel::new();
    assert!(!channel.is_ready());

    channel.send(123).unwrap();
    assert!(channel.is_ready());
    assert_eq!(channel.receive(), Ok(123));
}

#[test]
fn receive_no_message_reported() {
    let mut channel = OneShotChannel::<i32>::new();
    let e = channel.receive().unwrap_err();
    assert_eq!(e, ChannelError::NoMessage);
    assert_eq!(e.message(), "No message!");
}

#[test]
fn multiple_receives_reported() {
    let mut channel = OneShotChannel::new();
    channel.send(123).unwrap();
    channel.receive().unwrap();
    let e = channel.receive().unwrap_err();
    assert_eq!(e, ChannelError::AlreadyReceived);
    assert_eq!(e.message(), "Can't read message more than once!");
}

#[test]
fn multiple_sends_reported() {
    let mut channel = OneShotChannel::new();
    channel.send(123).unwrap();
    let e = channel.send(123).unwrap_err();
    assert_eq!(e, ChannelError::AlreadySent);
    assert_eq!(e.message(), "Can't send more than one message!");
}

#[test]
fn second_send_keeps_first_message() {
    let mut channel = OneShotChannel::new();
    channel.send("x").unwrap();
    assert_eq!(channel.send("y"), Err(ChannelError::AlreadySent));
    assert_eq!(channel.receive(), Ok("x"));
}

#[test]
fn drop_no_receive() {
    let value = Rc::new(123);
    let mut channel = OneShotChannel::new();

    channel.send(Rc::clone(&value)).unwrap();
    assert_eq!(Rc::strong_count(&value), 2);
    assert!(channel.holds_message());

    drop(channel);
    assert_eq!(Rc::strong_count(&value), 1);
}

#[test]
fn drop_with_receive() {
    let value = Rc::new(123);
    let mut channel = OneShotChannel::new();

    channel.send(Rc::clone(&value)).unwrap();
    assert_eq!(Rc::strong_count(&value), 2);

    let _ = channel.receive();
    assert_eq!(Rc::strong_count(&value), 1);
    assert!(!channel.holds_message());

    drop(channel);
    assert_eq!(Rc::strong_count(&value), 1);
}

#[test]
fn transitions() {
    assert_eq!(send_transition(EMPTY), Ok(WRITING));
    assert_eq!(send_transition(READY), Err(ChannelError::AlreadySent));
    assert_eq!(receive_transition(READY), Ok(DONE));
    assert_eq!(receive_transition(EMPTY), Err(ChannelError::NoMessage));
    assert_eq!(receive_transition(WRITING), Err(ChannelError::NoMessage));
    assert_eq!(receive_transition(DONE), Err(ChannelError::AlreadyReceived));
    assert!(holds_unclaimed(READY));
    assert!(holds_unclaimed(WRITING));
    assert!(!holds_unclaimed(EMPTY));
    assert!(!holds_unclaimed(DONE));
}
