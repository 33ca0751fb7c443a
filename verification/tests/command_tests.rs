use std::marker::PhantomData;

use nrg::command::{Command, CommandQueue, Decoder, DecodeError, JsonDecoder, JsonPayload, deliver};
use nrg::station::StationCommand;

#[test]
fn queue_is_first_in_first_out() {
    let mut q: CommandQueue<u32> = CommandQueue::new();
    assert_eq!(q.len(), 0);
    assert_eq!(q.next(), None);
    q.push(1);
    q.push(2);
    q.push(3);
    assert_eq!(q.len(), 3);
    assert_eq!(q.next(), Some(1));
    assert_eq!(q.next(), Some(2));
    assert_eq!(q.next(), Some(3));
    assert_eq!(q.next(), None);
}

#[test]
fn deliver_enqueues_successes_and_drops_failures() {
    let mut q: CommandQueue<u32> = CommandQueue::new();
    assert!(deliver(Ok(5), &mut q).is_ok());
    assert!(deliver(
        Err(DecodeError {
            message: String::from("bad")
        }),
        &mut q
    )
    .is_err());
    assert!(deliver(Ok(6), &mut q).is_ok());
    assert_eq!(q.next(), Some(5));
    assert_eq!(q.next(), Some(6));
    assert_eq!(q.next(), None);
}

#[test]
fn json_decoder_parses_and_tags() {
    let d = JsonDecoder(StationCommand::SetEnabled, PhantomData);
    assert_eq!(d.decode(b"true").unwrap(), StationCommand::SetEnabled(true));
    assert_eq!(d.decode(b"false").unwrap(), StationCommand::SetEnabled(false));
    assert!(d.decode(b"1").is_err());

    let c = JsonDecoder(StationCommand::SetChargingCurrent, PhantomData);
    assert_eq!(
        c.decode(b"6000").unwrap(),
        StationCommand::SetChargingCurrent(6000)
    );
    assert!(c.decode(b"-3").is_err());
    assert!(c.decode(b"90000").is_err());
}

#[test]
fn json_decoder_reports_the_fault() {
    let d = JsonDecoder(StationCommand::SetEnabled, PhantomData);
    let e = d.decode(b"maybe").unwrap_err();
    assert!(!e.message().is_empty());
}

#[test]
fn failing_decodes_leave_the_queue_empty() {
    let sink = Command {
        decoder: JsonDecoder(StationCommand::SetEnabled, PhantomData),
        marker: PhantomData,
    };
    let mut q: CommandQueue<StationCommand> = CommandQueue::new();
    for _ in 0..10 {
        let r = sink.send(b"not json", &mut q);
        assert!(r.is_err());
    }
    assert_eq!(q.len(), 0);
    assert_eq!(q.next(), None);
}

#[test]
fn command_sink_enqueues_decoded_values() {
    let sink = Command {
        decoder: JsonDecoder(StationCommand::SetChargingCurrent, PhantomData),
        marker: PhantomData,
    };
    let mut q: CommandQueue<StationCommand> = CommandQueue::new();
    assert!(sink.send(b"8000", &mut q).is_ok());
    assert!(sink.send(b"oops", &mut q).is_err());
    assert!(sink.send(b"16000", &mut q).is_ok());
    assert_eq!(q.next(), Some(StationCommand::SetChargingCurrent(8000)));
    assert_eq!(q.next(), Some(StationCommand::SetChargingCurrent(16000)));
    assert_eq!(q.next(), None);
}

#[test]
fn json_payload_string_decodes() {
    let s = String::from_json(b"\"on\"").unwrap();
    assert_eq!(s, "on");
    assert!(String::from_json(b"on").is_err());
    assert_eq!(bool::from_json(b"true").unwrap(), true);
    assert_eq!(i64::from_json(b"-12").unwrap(), -12);
    assert_eq!(u32::from_json(b"70000").unwrap(), 70000);
}
