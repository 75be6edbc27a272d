use resource_loader::handoff::{classify, single_shot, Polled, Report};

#[test]
fn nothing_sent_yet_is_not_ready() {
    let (outbox, mut inbox) = single_shot::<u32>();
    assert!(matches!(inbox.try_receive(), Polled::NotReady));
    assert!(matches!(inbox.try_receive(), Polled::NotReady));
    assert!(inbox.open());
    assert!(outbox.send(1).is_ok());
}

#[test]
fn value_is_delivered_exactly_once() {
    let (outbox, mut inbox) = single_shot::<u32>();
    assert!(matches!(inbox.try_receive(), Polled::NotReady));
    assert_eq!(outbox.send(42), Ok(()));
    assert!(matches!(inbox.try_receive(), Polled::Ready(42)));
    assert!(!inbox.open());
    assert!(matches!(inbox.try_receive(), Polled::Closed));
    assert!(matches!(inbox.try_receive(), Polled::Closed));
}

#[test]
fn dropped_producer_is_seen_at_the_next_receive() {
    let (outbox, mut inbox) = single_shot::<u32>();
    drop(outbox);
    assert!(matches!(inbox.try_receive(), Polled::Closed));
    assert!(!inbox.open());
    assert!(matches!(inbox.try_receive(), Polled::Closed));
}

#[test]
fn send_to_a_dropped_consumer_gives_the_value_back() {
    let (outbox, inbox) = single_shot::<String>();
    drop(inbox);
    assert_eq!(outbox.send("lost".to_string()), Err("lost".to_string()));
}

#[test]
fn classify_reads_each_answer() {
    assert!(matches!(classify::<u8>(Ok(None)), Polled::NotReady));
    assert!(matches!(classify::<u8>(Ok(Some(9))), Polled::Ready(9)));
    assert!(matches!(
        classify::<u8>(Err(futures_channel::oneshot::Canceled)),
        Polled::Closed
    ));
}

#[test]
fn kind_drops_the_value() {
    assert_eq!(Polled::<u8>::NotReady.kind(), Report::NotReady);
    assert_eq!(Polled::Ready(3u8).kind(), Report::Ready);
    assert_eq!(Polled::<u8>::Closed.kind(), Report::Closed);
}

#[test]
fn settle_latches_on_the_first_final_answer() {
    let (_outbox, mut inbox) = single_shot::<u8>();
    assert!(matches!(inbox.settle(Polled::NotReady), Polled::NotReady));
    assert!(inbox.open());
    assert!(matches!(inbox.settle(Polled::Ready(5)), Polled::Ready(5)));
    assert!(!inbox.open());
    assert!(matches!(inbox.settle(Polled::Ready(6)), Polled::Closed));
    assert!(matches!(inbox.settle(Polled::NotReady), Polled::Closed));
    assert!(!inbox.open());
}
