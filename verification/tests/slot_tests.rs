use altusd::engine::{make_output, process, Input, Output};
use altusd::slot::Slot;
use altusd::{Coin, Engine, Exchange};

/// A subscriber connected before any tick first observes a snapshot whose
/// index is undefined — a message, not silence.
#[test]
fn first_observation_is_undefined_index() {
    let mut engine = Engine::init();
    let mut slot = Slot::init(Output::init());
    let mut reader = slot.subscribe();
    assert!(!reader.has_changed(&slot));

    // The first tick arrives: one price for one coin.
    let index = process(&mut engine, Input::price(Coin::DOT, Exchange::Binance, 700));
    let out = make_output(Some(100), index).unwrap();
    slot.publish(out);

    assert!(reader.has_changed(&slot));
    let seen = reader.observe(&slot);
    assert_eq!(seen.epoch, 100);
    assert_eq!(seen.index, None);
    assert!(!reader.has_changed(&slot));
}

/// One publish reaches every one of a hundred subscribers, and the publish
/// itself never waits on any of them: it takes no reader at all.
#[test]
fn publish_reaches_all_subscribers() {
    let mut slot = Slot::init(Output::init());
    let mut readers: Vec<_> = (0..100).map(|_| slot.subscribe()).collect();

    slot.publish(Output { epoch: 7, index: Some((15, 0)) });

    for reader in readers.iter_mut() {
        assert!(reader.has_changed(&slot));
        let seen = reader.observe(&slot);
        assert_eq!(seen.epoch, 7);
        assert_eq!(seen.index, Some((15, 0)));
    }
}

/// A reader that was suspended across several publishes observes only the
/// latest snapshot: the slot keeps no backlog.
#[test]
fn slow_reader_skips_to_latest() {
    let mut slot = Slot::init(Output::init());
    let mut reader = slot.subscribe();

    slot.publish(Output { epoch: 1, index: None });
    slot.publish(Output { epoch: 2, index: Some((3, 5)) });
    slot.publish(Output { epoch: 3, index: Some((4, 0)) });

    let seen = reader.observe(&slot);
    assert_eq!(seen.epoch, 3);
    assert_eq!(seen.index, Some((4, 0)));
    assert!(!reader.has_changed(&slot));

    // An immediate read without marking leaves the marker alone.
    let peeked = slot.read();
    assert_eq!(peeked.epoch, 3);
}
