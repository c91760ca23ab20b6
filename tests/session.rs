use rumble::att::{disconnect_command, read_by_type_request, write_command, write_request};
use rumble::characteristic::{apply_discovered, CharPropFlags, Characteristic, Uuid, INDICATE, NOTIFY, READ};
use rumble::manager::Manager;
use rumble::notify::config_value;
use rumble::peripheral::{ConnComplete, Message, Peripheral, Step, Wake, MAX_REPLAY};
use rumble::properties::{AdvertisingData, AdvertisingReport};
use rumble::stream::{AclData, Pending};
use rumble::types::{AddressType, BDAddr, Error};

fn addr() -> BDAddr {
    BDAddr { address: [1, 2, 3, 4, 5, 6] }
}

fn other_addr() -> BDAddr {
    BDAddr { address: [9, 9, 9, 9, 9, 9] }
}

fn report(evt_type: u8, data: Vec<AdvertisingData>) -> Message {
    Message::LEAdvertisingReport(AdvertisingReport { evt_type, bdaddr_type: 1, bdaddr: addr(), data })
}

fn decl(start: u16, flags: u8) -> Characteristic {
    Characteristic {
        start_handle: start,
        end_handle: 0,
        value_handle: start + 1,
        uuid: Uuid::B16(0x2a00 + start),
        properties: CharPropFlags { bits: flags },
    }
}

fn packet(handle: u16, byte: u8) -> AclData {
    AclData { handle, cid: 4, data: vec![0x1b, byte] }
}

fn connected(handle: u16) -> Peripheral {
    let mut p = Peripheral::new(addr());
    assert!(p.begin_connect());
    p.handle_device_message(&Message::LEConnComplete(ConnComplete { bdaddr: addr(), handle }));
    let h = p.take_handoff().unwrap();
    p.connection_established(h, 7);
    p
}

fn decl_bytes(decls: &[(u16, u8)]) -> Vec<u8> {
    let mut d = vec![0x09, 7];
    for &(start, flags) in decls {
        let v = start + 1;
        let uuid = 0x2a00 + start;
        d.extend([start as u8, (start >> 8) as u8, flags, v as u8, (v >> 8) as u8, uuid as u8, (uuid >> 8) as u8]);
    }
    d
}

/// Hands `data` to the connection and carries the completion on.
fn answer(p: &mut Peripheral, handle: u16, data: Vec<u8>) -> (Step, Option<Vec<u8>>) {
    let done = p.receive(&AclData { handle, cid: 4, data }).unwrap();
    p.on_completion(&done)
}

#[test]
fn discovery_count_and_latest_fields() {
    let mut p = Peripheral::new(addr());
    p.handle_device_message(&report(0, vec![
        AdvertisingData::LocalName("first".to_string()),
        AdvertisingData::TxPowerLevel(-4),
    ]));
    p.handle_device_message(&report(0, vec![AdvertisingData::Other(3)]));
    p.handle_device_message(&report(4, vec![
        AdvertisingData::LocalName("second".to_string()),
        AdvertisingData::ManufacturerSpecific(vec![0xaa, 0xbb]),
        AdvertisingData::LocalName("third".to_string()),
    ]));
    let props = p.properties();
    assert_eq!(props.discovery_count, 3);
    assert_eq!(props.local_name, Some("third".to_string()));
    assert_eq!(props.tx_power_level, Some(-4));
    assert_eq!(props.manufacturer_data, Some(vec![0xaa, 0xbb]));
    assert!(props.has_scan_response);
    assert_eq!(props.address_type, AddressType::Random);
}

#[test]
fn report_for_other_address_is_ignored() {
    let mut p = Peripheral::new(addr());
    p.handle_device_message(&Message::LEAdvertisingReport(AdvertisingReport {
        evt_type: 4,
        bdaddr_type: 1,
        bdaddr: other_addr(),
        data: vec![AdvertisingData::LocalName("x".to_string())],
    }));
    let props = p.properties();
    assert_eq!(props.discovery_count, 0);
    assert_eq!(props.local_name, None);
    assert!(!props.has_scan_response);
}

#[test]
fn discovery_fixes_end_handles() {
    let mut p = connected(0x40);
    let first = p.discover_characteristics().unwrap();
    assert_eq!(first, Some(vec![0x08, 0x01, 0x00, 0xff, 0xff, 0x03, 0x28]));
    match answer(&mut p, 0x40, decl_bytes(&[(0x10, READ), (0x20, READ)])) {
        (Step::Send(v), None) => assert_eq!(v, vec![0x08, 0x21, 0x00, 0xff, 0xff, 0x03, 0x28]),
        other => panic!("unexpected {:?}", other),
    }
    match answer(&mut p, 0x40, decl_bytes(&[(0x30, NOTIFY)])) {
        (Step::Send(v), None) => assert_eq!(v, vec![0x08, 0x31, 0x00, 0xff, 0xff, 0x03, 0x28]),
        other => panic!("unexpected {:?}", other),
    }
    assert!(matches!(answer(&mut p, 0x40, decl_bytes(&[])), (Step::Done, None)));
    assert!(p.stream.as_ref().unwrap().outstanding.is_none());
    let ends: Vec<(u16, u16)> = p.characteristics().iter().map(|c| (c.start_handle, c.end_handle)).collect();
    assert_eq!(ends, vec![(0x10, 0x1f), (0x20, 0x2f), (0x30, 0xffff)]);
}

#[test]
fn discovery_twice_gives_same_set() {
    let decls = vec![decl(0x10, READ), decl(0x20, READ), decl(0x30, NOTIFY)];
    let mut chars = Vec::new();
    assert_eq!(apply_discovered(&mut chars, &decls, 0xffff), Some(0x31));
    let once = chars.clone();
    apply_discovered(&mut chars, &decls, 0xffff);
    assert_eq!(chars, once);
    let ends: Vec<u16> = chars.iter().map(|c| c.end_handle).collect();
    assert_eq!(ends, vec![0x1f, 0x2f, 0xffff]);
}

#[test]
fn discovery_ends_at_range_top() {
    let mut chars = Vec::new();
    assert_eq!(apply_discovered(&mut chars, &vec![decl(0x20, READ), decl(0x30, READ)], 0x30), None);
    assert_eq!(chars[0].end_handle, 0x2f);
    assert_eq!(chars[1].end_handle, 0x30);
    assert_eq!(apply_discovered(&mut chars, &vec![decl(0x10, READ)], 0x30), Some(0x11));
    let ends: Vec<(u16, u16)> = chars.iter().map(|c| (c.start_handle, c.end_handle)).collect();
    assert_eq!(ends, vec![(0x10, 0x1f), (0x20, 0x2f), (0x30, 0x30)]);
}

#[test]
fn discovery_without_connection_fails() {
    let mut p = Peripheral::new(addr());
    assert!(matches!(p.discover_characteristics(), Err(Error::NotConnected)));
}

#[test]
fn early_packet_is_replayed_first() {
    let mut p = Peripheral::new(addr());
    assert!(p.begin_connect());
    assert!(p.handle_device_message(&Message::ACLDataPacket(packet(0x40, 1))).is_empty());
    assert!(p.handle_device_message(&Message::ACLDataPacket(packet(0x41, 2))).is_empty());
    assert!(p.handle_device_message(&Message::ACLDataPacket(packet(0x40, 3))).is_empty());
    p.handle_device_message(&Message::LEConnComplete(ConnComplete { bdaddr: addr(), handle: 0x40 }));
    let h = p.take_handoff().unwrap();
    assert_eq!(h, 0x40);
    let replayed = p.connection_established(h, 7);
    let bytes: Vec<u8> = replayed.iter().map(|d| d.data[1]).collect();
    assert_eq!(bytes, vec![1, 3]);
    assert!(p.is_connected());
    let later = p.handle_device_message(&Message::ACLDataPacket(packet(0x40, 4)));
    assert_eq!(later.len(), 1);
    assert_eq!(later[0].data, vec![0x1b, 4]);
    assert!(p.handle_device_message(&Message::ACLDataPacket(packet(0x41, 5))).is_empty());
}

#[test]
fn conn_complete_without_connect_is_ignored() {
    let mut p = Peripheral::new(addr());
    p.handle_device_message(&Message::LEConnComplete(ConnComplete { bdaddr: addr(), handle: 1 }));
    assert_eq!(p.take_handoff(), None);
}

#[test]
fn connect_timeout_leaves_no_connection() {
    let mut p = Peripheral::new(addr());
    assert!(p.begin_connect());
    assert_eq!(p.take_handoff(), None);
    let e = p.connect_timed_out();
    assert!(matches!(e, Error::TimedOut(20)));
    assert!(!p.is_connected());
}

#[test]
fn connect_when_connected_does_nothing() {
    let mut p = connected(0x40);
    assert!(!p.begin_connect());
    assert!(p.is_connected());
}

#[test]
fn disconnect_twice() {
    let mut p = connected(0x0102);
    assert_eq!(p.disconnect_request(), Some(vec![0x01, 0x06, 0x04, 0x03, 0x02, 0x01, 0x13]));
    assert!(p.is_connected());
    p.disconnect();
    assert!(!p.is_connected());
    assert_eq!(p.disconnect_request(), None);
    p.disconnect();
    assert!(!p.is_connected());
}

#[test]
fn subscribe_then_unsubscribe_four_pdus() {
    let mut p = connected(0x40);
    let c = Characteristic { end_handle: 0x1f, ..decl(0x10, NOTIFY | INDICATE) };
    let mut wire = Vec::new();
    wire.push(p.subscribe(&c).unwrap().unwrap());
    assert_eq!(p.unsubscribe(&c).unwrap(), None);
    // the first read's answer: its write goes out before the second read
    match answer(&mut p, 0x40, vec![0x09, 4, 0x12, 0, 0, 0]) {
        (Step::Send(v), None) => wire.push(v),
        other => panic!("unexpected {:?}", other),
    }
    // the write's answer ends that chain and lets the second read out
    match answer(&mut p, 0x40, vec![0x13]) {
        (Step::Done, Some(v)) => wire.push(v),
        other => panic!("unexpected {:?}", other),
    }
    // the second read sees the value the first write left
    match answer(&mut p, 0x40, vec![0x09, 4, 0x12, 0, 1, 0]) {
        (Step::Send(v), None) => wire.push(v),
        other => panic!("unexpected {:?}", other),
    }
    assert!(matches!(answer(&mut p, 0x40, vec![0x13]), (Step::Done, None)));
    assert_eq!(wire, vec![
        vec![0x08, 0x10, 0x00, 0x1f, 0x00, 0x02, 0x29],
        vec![0x12, 0x12, 0x00, 0x01, 0x00],
        vec![0x08, 0x10, 0x00, 0x1f, 0x00, 0x02, 0x29],
        vec![0x12, 0x12, 0x00, 0x00, 0x00],
    ]);
    assert!(p.stream.as_ref().unwrap().outstanding.is_none());
}

#[test]
fn one_request_on_the_wire() {
    let mut p = connected(0x40);
    let c = decl(0x10, NOTIFY);
    assert!(p.subscribe(&c).unwrap().is_some());
    assert_eq!(p.unsubscribe(&c).unwrap(), None);
    assert_eq!(p.request(&c, &[1], 5).unwrap(), None);
    let s = p.stream.as_ref().unwrap();
    assert_eq!(s.outstanding, Some(Pending::ConfigRead { characteristic: c, enable: true }));
    assert_eq!(s.queue.len(), 2);
}

#[test]
fn config_value_bits() {
    let notify = CharPropFlags { bits: NOTIFY };
    let indicate = CharPropFlags { bits: INDICATE };
    let neither = CharPropFlags { bits: READ };
    assert_eq!(config_value(notify, 0x0002, true), 0x0003);
    assert_eq!(config_value(notify, 0x0003, false), 0x0002);
    assert_eq!(config_value(indicate, 0x0000, true), 0x0002);
    assert_eq!(config_value(indicate, 0x0003, false), 0x0001);
    assert_eq!(config_value(neither, 0x0001, true), 0x0001);
}

#[test]
fn responses_match_requests_in_order() {
    let mut p = connected(0x40);
    let c = decl(0x10, READ);
    assert_eq!(p.request(&c, &[7, 8], 100).unwrap(), Some(vec![0x12, 0x11, 0x00, 7, 8]));
    assert_eq!(p.request(&c, &[9], 101).unwrap(), None);
    let note = p.receive(&AclData { handle: 0x40, cid: 4, data: vec![0x1b, 0x11, 0, 5] }).unwrap();
    assert_eq!(note.pending, None);
    assert!(matches!(p.on_completion(&note), (Step::Pushed(_), None)));
    let r1 = p.receive(&AclData { handle: 0x40, cid: 4, data: vec![0x13] }).unwrap();
    assert_eq!(r1.pending, Some(Pending::Request { id: 100 }));
    match p.on_completion(&r1) {
        (Step::Answered { id: 100, .. }, Some(next)) => assert_eq!(next, vec![0x12, 0x11, 0x00, 9]),
        other => panic!("unexpected {:?}", other),
    }
    let r2 = p.receive(&AclData { handle: 0x40, cid: 4, data: vec![0x13] }).unwrap();
    assert_eq!(r2.pending, Some(Pending::Request { id: 101 }));
    assert!(matches!(p.on_completion(&r2), (Step::Answered { id: 101, .. }, None)));
    let r3 = p.receive(&AclData { handle: 0x40, cid: 4, data: vec![0x13] }).unwrap();
    assert_eq!(r3.pending, None);
    assert!(p.receive(&AclData { handle: 0x41, cid: 4, data: vec![0x13] }).is_none());
}

#[test]
fn request_and_command_need_connection() {
    let mut p = Peripheral::new(addr());
    let c = decl(0x10, READ);
    assert!(matches!(p.request(&c, &[1], 1), Err(Error::NotConnected)));
    assert!(matches!(p.command(&c, &[1]), Err(Error::NotConnected)));
    assert!(matches!(p.subscribe(&c), Err(Error::NotConnected)));
    let q = connected(0x40);
    assert_eq!(q.command(&c, &[1, 2]).unwrap(), vec![0x52, 0x11, 0x00, 1, 2]);
}

#[test]
fn pdu_encodings() {
    assert_eq!(write_request(0x1234, &[5]), vec![0x12, 0x34, 0x12, 5]);
    assert_eq!(write_command(0x0001, &[]), vec![0x52, 0x01, 0x00]);
    assert_eq!(read_by_type_request(1, 0xffff, 0x2803), vec![0x08, 1, 0, 0xff, 0xff, 0x03, 0x28]);
    assert_eq!(disconnect_command(0x0040), vec![0x01, 0x06, 0x04, 0x03, 0x40, 0x00, 0x13]);
}

#[test]
fn addresses_compare_by_bytes() {
    assert!(addr().same_as(&addr()));
    assert!(!addr().same_as(&other_addr()));
    assert_eq!(AddressType::Random.num(), 1);
    assert_eq!(AddressType::Public.num(), 0);
}

#[test]
fn manager_new() {
    let _m: Manager = Manager::new();
}

#[test]
fn replay_queue_is_bounded() {
    let mut p = Peripheral::new(addr());
    assert!(p.begin_connect());
    for i in 0..MAX_REPLAY + 3 {
        p.handle_device_message(&Message::ACLDataPacket(packet(0x40, i as u8)));
    }
    assert_eq!(p.message_queue.len(), MAX_REPLAY);
    let replayed = p.connection_established(0x40, 7);
    assert_eq!(replayed.len(), MAX_REPLAY);
    assert_eq!(replayed[0].data[1], 0);
    assert_eq!(replayed[MAX_REPLAY - 1].data[1], (MAX_REPLAY - 1) as u8);
}

#[test]
fn connect_wake_steps() {
    let mut p = Peripheral::new(addr());
    assert!(p.begin_connect());
    assert!(matches!(p.connect_wake(false, 5), Wake::Wait));
    p.handle_device_message(&Message::ACLDataPacket(packet(0x40, 1)));
    p.handle_device_message(&Message::LEConnComplete(ConnComplete { bdaddr: addr(), handle: 0x40 }));
    match p.connect_wake(false, 5) {
        Wake::Established(v) => {
            assert_eq!(v.len(), 1);
            assert_eq!(v[0].data, vec![0x1b, 1]);
        }
        other => panic!("unexpected {:?}", other),
    }
    assert!(p.is_connected());
    let mut q = Peripheral::new(addr());
    assert!(q.begin_connect());
    assert!(matches!(q.connect_wake(true, 5), Wake::TimedOut(Error::TimedOut(20))));
    assert!(!q.is_connected());
}

#[test]
fn summary_text() {
    let mut p = Peripheral::new(BDAddr { address: [0x01, 0x02, 0x0a, 0xb0, 0xff, 0x3c] });
    assert_eq!(p.summary(), "3C:FF:B0:0A:02:01 (unknown)");
    p.handle_device_message(&Message::LEAdvertisingReport(AdvertisingReport {
        evt_type: 0,
        bdaddr_type: 0,
        bdaddr: p.address(),
        data: vec![AdvertisingData::LocalName("Sensor".to_string())],
    }));
    assert_eq!(p.summary(), "3C:FF:B0:0A:02:01 Sensor");
    p.begin_connect();
    p.connection_established(0x40, 3);
    assert_eq!(p.summary(), "3C:FF:B0:0A:02:01 Sensor connected");
}
