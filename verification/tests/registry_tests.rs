use std::marker::PhantomData;

use nrg::client::{DispatchAction, SubscriptionRegistry, TransportEvent};
use nrg::command::{Command, CommandQueue, JsonDecoder};
use nrg::station::StationCommand;
use nrg::topic::{Pattern, PatternError};

#[test]
fn overlapping_patterns_each_receive_once() {
    let mut reg = SubscriptionRegistry::new();
    reg.insert(Pattern::parse("a/+/cmd").unwrap());
    reg.insert(Pattern::parse("a/b/cmd").unwrap());
    let hits = reg.matching_indices("a/b/cmd");
    assert_eq!(hits, vec![0, 1]);
}

#[test]
fn only_matching_subscriptions_are_listed() {
    let mut reg = SubscriptionRegistry::new();
    reg.insert(Pattern::parse("x/#").unwrap());
    reg.insert(Pattern::parse("y/+").unwrap());
    reg.insert(Pattern::parse("x/1").unwrap());
    assert_eq!(reg.matching_indices("x/1"), vec![0, 2]);
    assert_eq!(reg.matching_indices("y/2"), vec![1]);
    assert_eq!(reg.matching_indices("z"), Vec::<usize>::new());
    assert_eq!(reg.len(), 3);
}

#[test]
fn insert_before_dispatch_is_eligible() {
    let mut reg = SubscriptionRegistry::new();
    reg.subscribe("nrg/#").unwrap();
    assert_eq!(reg.matching_indices("nrg/x"), vec![0]);
    reg.subscribe("nrg/x").unwrap();
    assert_eq!(reg.matching_indices("nrg/x"), vec![0, 1]);
}

#[test]
fn subscribe_rejects_bad_filter_and_keeps_registry() {
    let mut reg = SubscriptionRegistry::new();
    reg.subscribe("a/b").unwrap();
    let r = reg.subscribe("a/#/b");
    assert!(matches!(
        r,
        Err(PatternError::MultiLevelWildcardNotLastCharacter)
    ));
    assert_eq!(reg.len(), 1);
}

#[test]
fn dispatch_step_decides_per_event() {
    let mut reg = SubscriptionRegistry::new();
    reg.subscribe("a/#").unwrap();
    reg.subscribe("b").unwrap();

    let publish = TransportEvent::Publish {
        topic: String::from("a/1"),
        payload: b"7".to_vec(),
        retained: false,
    };
    match nrg::client::dispatch_step(&reg, Some(&publish)) {
        DispatchAction::Deliver(hits) => assert_eq!(hits, vec![0]),
        _ => panic!("publish event must deliver"),
    }

    assert!(matches!(
        nrg::client::dispatch_step(&reg, Some(&TransportEvent::Other)),
        DispatchAction::Ignore
    ));
    assert!(matches!(
        nrg::client::dispatch_step(&reg, None),
        DispatchAction::Stop
    ));
}

#[test]
fn overlapping_command_channels_each_decode_once() {
    let mut reg = SubscriptionRegistry::new();
    reg.subscribe("a/+/cmd").unwrap();
    reg.subscribe("a/b/cmd").unwrap();

    let first = Command {
        decoder: JsonDecoder(StationCommand::SetChargingCurrent, PhantomData),
        marker: PhantomData,
    };
    let second = Command {
        decoder: JsonDecoder(StationCommand::SetChargingCurrent, PhantomData),
        marker: PhantomData,
    };
    let mut first_queue: CommandQueue<StationCommand> = CommandQueue::new();
    let mut second_queue: CommandQueue<StationCommand> = CommandQueue::new();

    let event = TransportEvent::Publish {
        topic: String::from("a/b/cmd"),
        payload: b"7000".to_vec(),
        retained: false,
    };
    match nrg::client::dispatch_step(&reg, Some(&event)) {
        DispatchAction::Deliver(hits) => {
            assert_eq!(hits, vec![0, 1]);
            for hit in hits {
                match hit {
                    0 => assert!(first.send(b"7000", &mut first_queue).is_ok()),
                    1 => assert!(second.send(b"7000", &mut second_queue).is_ok()),
                    _ => panic!("no such subscription"),
                }
            }
        }
        _ => panic!("publish event must deliver"),
    }
    assert_eq!(first_queue.len(), 1);
    assert_eq!(second_queue.len(), 1);
    assert_eq!(
        first_queue.next(),
        Some(StationCommand::SetChargingCurrent(7000))
    );
    assert_eq!(
        second_queue.next(),
        Some(StationCommand::SetChargingCurrent(7000))
    );
}
