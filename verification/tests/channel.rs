use async_channel::{TryRecvError, TrySendError};
use rings_node::channel::{AcChannel, Channel, Event};

#[test]
fn channel_has_the_capacity_it_was_made_with() {
    let ch = AcChannel::new(3);
    assert_eq!(ch.sender().capacity(), Some(3));
    assert_eq!(ch.receiver().capacity(), Some(3));
    let ch = AcChannel::new(1);
    assert_eq!(ch.sender().capacity(), Some(1));
}

#[test]
fn new_channel_is_empty() {
    let ch = AcChannel::new(2);
    assert!(ch.sender().is_empty());
    assert_eq!(ch.receiver().try_recv(), Err(TryRecvError::Empty));
}

#[test]
fn events_arrive_in_the_order_sent() {
    let ch = AcChannel::new(4);
    let first = ch.sender();
    let second = ch.sender();
    first.try_send(Event::ReceiveMsg(vec![1])).unwrap();
    second.try_send(Event::ConnectFailed).unwrap();
    first.try_send(Event::ReceiveMsg(vec![2, 3])).unwrap();
    let rx = ch.receiver();
    assert_eq!(rx.try_recv(), Ok(Event::ReceiveMsg(vec![1])));
    assert_eq!(ch.receiver().try_recv(), Ok(Event::ConnectFailed));
    assert_eq!(rx.try_recv(), Ok(Event::ReceiveMsg(vec![2, 3])));
    assert_eq!(rx.try_recv(), Err(TryRecvError::Empty));
}

#[test]
fn full_channel_takes_no_more() {
    let ch = AcChannel::new(1);
    ch.sender().try_send(Event::ConnectFailed).unwrap();
    assert_eq!(
        ch.sender().try_send(Event::ReceiveMsg(vec![7])),
        Err(TrySendError::Full(Event::ReceiveMsg(vec![7])))
    );
    assert_eq!(ch.receiver().try_recv(), Ok(Event::ConnectFailed));
    ch.sender().try_send(Event::ReceiveMsg(vec![7])).unwrap();
}

#[test]
fn handles_keep_the_channel_open() {
    let ch = AcChannel::new(1);
    let tx = ch.sender();
    let rx = ch.receiver();
    drop(ch);
    tx.try_send(Event::ConnectFailed).unwrap();
    assert_eq!(rx.try_recv(), Ok(Event::ConnectFailed));
    drop(tx);
    assert_eq!(rx.try_recv(), Err(TryRecvError::Closed));
}
