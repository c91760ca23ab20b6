use rumble::decode::{characteristics, config_response, push_handle};
use rumble::characteristic::{Uuid, NOTIFY, READ};
use rumble::peripheral::{ConnComplete, Message, Peripheral, Step};
use rumble::stream::AclData;
use rumble::types::BDAddr;

fn addr() -> BDAddr {
    BDAddr { address: [0xa0, 0xa1, 0xa2, 0xa3, 0xa4, 0xa5] }
}

fn session(handle: u16) -> Peripheral {
    let mut p = Peripheral::new(addr());
    p.begin_connect();
    p.handle_device_message(&Message::LEConnComplete(ConnComplete { bdaddr: addr(), handle }));
    let h = p.take_handoff().unwrap();
    p.connection_established(h, 3);
    p
}

fn deliver(p: &mut Peripheral, handle: u16, data: Vec<u8>) -> Step {
    deliver_next(p, handle, data).0
}

fn deliver_next(p: &mut Peripheral, handle: u16, data: Vec<u8>) -> (Step, Option<Vec<u8>>) {
    let routed = p.handle_device_message(&Message::ACLDataPacket(AclData { handle, cid: 4, data }));
    assert_eq!(routed.len(), 1);
    let done = p.receive(&routed[0]).unwrap();
    p.on_completion(&done)
}

fn decl_item(start: u16, props: u8, uuid: u16) -> Vec<u8> {
    let v = start + 1;
    vec![start as u8, (start >> 8) as u8, props, v as u8, (v >> 8) as u8, uuid as u8, (uuid >> 8) as u8]
}

#[test]
fn decode_short_declarations() {
    let mut d = vec![0x09, 7];
    d.extend(decl_item(0x0010, READ, 0x2a00));
    d.extend(decl_item(0x0020, NOTIFY, 0x2a01));
    let cs = characteristics(&d).unwrap();
    assert_eq!(cs.len(), 2);
    assert_eq!(cs[0].start_handle, 0x10);
    assert_eq!(cs[0].value_handle, 0x11);
    assert_eq!(cs[0].uuid, Uuid::B16(0x2a00));
    assert_eq!(cs[1].properties.bits, NOTIFY);
}

#[test]
fn decode_long_declaration() {
    let mut d = vec![0x09, 21, 0x05, 0x00, 0x02, 0x06, 0x00];
    d.extend((1u8..=16).collect::<Vec<u8>>());
    let cs = characteristics(&d).unwrap();
    assert_eq!(cs.len(), 1);
    assert_eq!(cs[0].uuid, Uuid::B128(u128::from_le_bytes([1, 2, 3, 4, 5, 6, 7, 8, 9, 10, 11, 12, 13, 14, 15, 16])));
}

#[test]
fn decode_rejects_bad_pdus() {
    assert!(characteristics(&[0x01, 0x08, 0x01, 0x00, 0x0a]).is_none());
    assert!(characteristics(&[0x09, 7, 1, 0, 2]).is_none());
    assert!(characteristics(&[0x09, 5, 1, 0, 2, 3, 4]).is_none());
    assert_eq!(characteristics(&[0x09, 7]).unwrap().len(), 0);
    assert_eq!(config_response(&[0x09, 4, 0x34, 0x12, 0x01, 0x00]), Some((0x1234, 1)));
    assert_eq!(config_response(&[0x01, 0x08, 0x34, 0x12, 0x0a]), None);
    assert_eq!(push_handle(&[0x1b, 0x11, 0x00, 0x2a]), Some(0x11));
    assert_eq!(push_handle(&[0x1d, 0x34, 0x12]), Some(0x1234));
    assert_eq!(push_handle(&[0x13]), None);
    assert_eq!(push_handle(&[0x1b, 0x11]), None);
}

#[test]
fn discovery_over_the_wire() {
    let mut p = session(0x40);
    p.discover_characteristics().unwrap();
    let mut first = vec![0x09, 7];
    first.extend(decl_item(0x0010, READ, 0x2a00));
    first.extend(decl_item(0x0020, READ, 0x2a01));
    match deliver(&mut p, 0x40, first) {
        Step::Send(v) => assert_eq!(v, vec![0x08, 0x21, 0x00, 0xff, 0xff, 0x03, 0x28]),
        other => panic!("unexpected {:?}", other),
    }
    let mut second = vec![0x09, 7];
    second.extend(decl_item(0x0030, NOTIFY, 0x2a02));
    match deliver(&mut p, 0x40, second) {
        Step::Send(v) => assert_eq!(v, vec![0x08, 0x31, 0x00, 0xff, 0xff, 0x03, 0x28]),
        other => panic!("unexpected {:?}", other),
    }
    assert!(matches!(deliver(&mut p, 0x40, vec![0x01, 0x08, 0x31, 0x00, 0x0a]), Step::Malformed));
    let ends: Vec<u16> = p.characteristics().iter().map(|c| c.end_handle).collect();
    assert_eq!(ends, vec![0x1f, 0x2f, 0xffff]);
}

#[test]
fn subscription_over_the_wire() {
    let mut p = session(0x41);
    let mut d = vec![0x09, 7];
    d.extend(decl_item(0x0010, NOTIFY, 0x2a00));
    let c = characteristics(&d).unwrap()[0];
    let read = p.subscribe(&c).unwrap();
    assert_eq!(read.unwrap(), vec![0x08, 0x10, 0x00, 0x00, 0x00, 0x02, 0x29]);
    match deliver(&mut p, 0x41, vec![0x09, 4, 0x13, 0x00, 0x00, 0x00]) {
        Step::Send(v) => assert_eq!(v, vec![0x12, 0x13, 0x00, 0x01, 0x00]),
        other => panic!("unexpected {:?}", other),
    }
    assert!(matches!(deliver(&mut p, 0x41, vec![0x13]), Step::Done));
    match deliver(&mut p, 0x41, vec![0x1b, 0x11, 0x00, 0x2a]) {
        Step::Pushed(v) => assert_eq!(v, vec![0x1b, 0x11, 0x00, 0x2a]),
        other => panic!("unexpected {:?}", other),
    }
    p.request(&c, &[1], 9).unwrap();
    match deliver(&mut p, 0x41, vec![0x13]) {
        Step::Answered { id, data } => {
            assert_eq!(id, 9);
            assert_eq!(data, vec![0x13]);
        }
        other => panic!("unexpected {:?}", other),
    }
}

#[test]
fn follow_up_fails_after_disconnect() {
    let mut p = session(0x42);
    p.discover_characteristics().unwrap();
    let routed = p.handle_device_message(&Message::ACLDataPacket(AclData {
        handle: 0x42,
        cid: 4,
        data: [vec![0x09, 7], decl_item(0x0010, READ, 0x2a00)].concat(),
    }));
    let done = p.receive(&routed[0]).unwrap();
    p.disconnect();
    assert!(matches!(p.on_completion(&done), (Step::Failed(rumble::types::Error::NotConnected), None)));
    assert_eq!(p.characteristics().len(), 1);
}

#[test]
fn subscribe_then_unsubscribe_back_to_back() {
    let mut p = session(0x43);
    let mut d = vec![0x09, 7];
    d.extend(decl_item(0x0010, 0x20, 0x2a00));
    let c = characteristics(&d).unwrap()[0];
    let read1 = p.subscribe(&c).unwrap().unwrap();
    assert_eq!(p.unsubscribe(&c).unwrap(), None);
    assert_eq!(read1, vec![0x08, 0x10, 0x00, 0x00, 0x00, 0x02, 0x29]);
    // the first read's answer puts its write on the wire, ahead of the
    // second read
    let (step, next) = deliver_next(&mut p, 0x43, vec![0x09, 4, 0x13, 0x00, 0x00, 0x00]);
    match step {
        Step::Send(v) => assert_eq!(v, vec![0x12, 0x13, 0x00, 0x02, 0x00]),
        other => panic!("unexpected {:?}", other),
    }
    assert_eq!(next, None);
    // the write's answer ends the chain and lets the second read out
    let (step, next) = deliver_next(&mut p, 0x43, vec![0x13]);
    assert!(matches!(step, Step::Done));
    assert_eq!(next, Some(read1.clone()));
    // the second read finds the bit set and its write clears it
    let (step, next) = deliver_next(&mut p, 0x43, vec![0x09, 4, 0x13, 0x00, 0x02, 0x00]);
    match step {
        Step::Send(v) => assert_eq!(v, vec![0x12, 0x13, 0x00, 0x00, 0x00]),
        other => panic!("unexpected {:?}", other),
    }
    assert_eq!(next, None);
    let (step, next) = deliver_next(&mut p, 0x43, vec![0x01, 0x12, 0x13, 0x00, 0x03]);
    assert!(matches!(step, Step::Malformed));
    assert_eq!(next, None);
}
