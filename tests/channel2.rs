use std::rc::Rc;

use atomics::channel2::{receive_step, NoMessage, OneShotChannel};

#[test]
fn channel2_single_thread() {
    let mut channel = OneShotChannel::new();
    let (sender, receiver) = channel.split();
    assert!(!receiver.is_ready(&channel));
    sender.send(&mut channel, 123);
    assert!(receiver.is_ready(&channel));
    assert_eq!(receiver.receive(&mut channel), Ok(123));
}

#[test]
fn receive_before_send_reported() {
    let mut channel = OneShotChannel::<i32>::new();
    let (_, receiver) = channel.split();
    assert_eq!(receiver.receive(&mut channel), Err(NoMessage {}));
}

#[test]
fn drop_without_receive() {
    let message = Rc::new(123);
    let mut channel = OneShotChannel::new();
    let (sender, _) = channel.split();
    sender.send(&mut channel, Rc::clone(&message));
    assert_eq!(Rc::strong_count(&message), 2);

    drop(channel);

    assert_eq!(Rc::strong_count(&message), 1);
}

#[test]
fn drop_after_receive() {
    let message = Rc::new(123);
    let mut channel = OneShotChannel::new();
    let (sender, receiver) = channel.split();
    sender.send(&mut channel, Rc::clone(&message));
    assert_eq!(Rc::strong_count(&message), 2);

    let received = receiver.receive(&mut channel).unwrap();
    assert_eq!(&message, &received);
    assert_eq!(*received, 123);
    assert_eq!(Rc::strong_count(&message), 2);

    drop(received);
    assert_eq!(Rc::strong_count(&message), 1);
}

#[test]
fn channel_reuse() {
    let message = Rc::new(123);
    let mut channel = OneShotChannel::new();
    let (sender, _) = channel.split();
    sender.send(&mut channel, Rc::clone(&message));
    assert_eq!(Rc::strong_count(&message), 2);

    let (sender, receiver) = channel.split();
    assert_eq!(Rc::strong_count(&message), 1);

    sender.send(&mut channel, Rc::clone(&message));
    assert_eq!(Rc::strong_count(&message), 2);

    let received = receiver.receive(&mut channel).unwrap();
    assert_eq!(Rc::strong_count(&message), 2);

    drop(channel);
    assert_eq!(Rc::strong_count(&message), 2);

    drop(received);
    assert_eq!(Rc::strong_count(&message), 1);
}

#[test]
fn receive_step_cases() {
    assert!(receive_step(true));
    assert!(!receive_step(false));
}
