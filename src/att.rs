use vstd::prelude::*;

verus! {

/// Fixed L2CAP channel of the attribute protocol.
pub const ATT_CID: u16 = 4;

pub const ATT_OP_ERROR_RESP: u8 = 0x01;
pub const ATT_OP_READ_BY_TYPE_REQ: u8 = 0x08;
pub const ATT_OP_READ_BY_TYPE_RESP: u8 = 0x09;
pub const ATT_OP_WRITE_REQ: u8 = 0x12;
pub const ATT_OP_WRITE_RESP: u8 = 0x13;
pub const ATT_OP_VALUE_NOTIFICATION: u8 = 0x1b;
pub const ATT_OP_VALUE_INDICATION: u8 = 0x1d;
pub const ATT_OP_WRITE_CMD: u8 = 0x52;

/// Attribute type of a characteristic declaration.
pub const GATT_CHARAC_UUID: u16 = 0x2803;
/// Attribute type of a client characteristic configuration descriptor.
pub const GATT_CLIENT_CHARAC_CFG_UUID: u16 = 0x2902;

/// HCI packet type of a command.
pub const HCI_COMMAND_PKT: u8 = 0x01;
/// HCI Disconnect command: link control group, command 0x0006.
pub const DISCONNECT_CMD: u16 = 0x0406;
/// Disconnect reason: the remote user ended the connection.
pub const HCI_OE_USER_ENDED_CONNECTION: u8 = 0x13;

/// The two bytes of `v`, least significant first.
pub open spec fn le16(v: u16) -> Seq<u8> {
    seq![(v % 256) as u8, (v / 256) as u8]
}

fn push_u16_le(buf: &mut Vec<u8>, v: u16)
    ensures
        final(buf)@ == old(buf)@ + le16(v),
{
    buf.push((v % 256) as u8);
    buf.push((v / 256) as u8);
    assert(final(buf)@ =~= old(buf)@ + le16(v));
}

fn push_all(buf: &mut Vec<u8>, data: &[u8])
    ensures
        final(buf)@ == old(buf)@ + data@,
{
    let ghost start = buf@;
    let mut i: usize = 0;
    while i < data.len()
        invariant
            i <= data@.len(),
            buf@ == start + data@.subrange(0, i as int),
        decreases data@.len() - i,
    {
        buf.push(data[i]);
        i = i + 1;
        assert(buf@ =~= start + data@.subrange(0, i as int));
    }
    assert(data@.subrange(0, data@.len() as int) =~= data@);
}

pub open spec fn write_request_spec(handle: u16, data: Seq<u8>) -> Seq<u8> {
    seq![ATT_OP_WRITE_REQ] + le16(handle) + data
}

pub open spec fn write_command_spec(handle: u16, data: Seq<u8>) -> Seq<u8> {
    seq![ATT_OP_WRITE_CMD] + le16(handle) + data
}

pub open spec fn read_by_type_spec(start: u16, end: u16, uuid: u16) -> Seq<u8> {
    seq![ATT_OP_READ_BY_TYPE_REQ] + le16(start) + le16(end) + le16(uuid)
}

pub open spec fn disconnect_command_spec(handle: u16) -> Seq<u8> {
    seq![HCI_COMMAND_PKT] + le16(DISCONNECT_CMD) + seq![3u8] + le16(handle) + seq![
        HCI_OE_USER_ENDED_CONNECTION,
    ]
}

/// A write request: write `data` to the attribute at `handle`, answer wanted.
pub fn write_request(handle: u16, data: &[u8]) -> (r: Vec<u8>)
    ensures
        r@ == write_request_spec(handle, data@),
{
    let mut buf: Vec<u8> = Vec::new();
    buf.push(ATT_OP_WRITE_REQ);
    push_u16_le(&mut buf, handle);
    push_all(&mut buf, data);
    assert(buf@ =~= write_request_spec(handle, data@));
    buf
}

/// A write command: write `data` to the attribute at `handle`, no answer.
pub fn write_command(handle: u16, data: &[u8]) -> (r: Vec<u8>)
    ensures
        r@ == write_command_spec(handle, data@),
{
    let mut buf: Vec<u8> = Vec::new();
    buf.push(ATT_OP_WRITE_CMD);
    push_u16_le(&mut buf, handle);
    push_all(&mut buf, data);
    assert(buf@ =~= write_command_spec(handle, data@));
    buf
}

/// A read-by-type request for attributes of type `uuid` in `[start, end]`.
pub fn read_by_type_request(start: u16, end: u16, uuid: u16) -> (r: Vec<u8>)
    ensures
        r@ == read_by_type_spec(start, end, uuid),
{
    let mut buf: Vec<u8> = Vec::new();
    buf.push(ATT_OP_READ_BY_TYPE_REQ);
    push_u16_le(&mut buf, start);
    push_u16_le(&mut buf, end);
    push_u16_le(&mut buf, uuid);
    assert(buf@ =~= read_by_type_spec(start, end, uuid));
    buf
}

/// The HCI command that ends the link with connection handle `handle`.
pub fn disconnect_command(handle: u16) -> (r: Vec<u8>)
    ensures
        r@ == disconnect_command_spec(handle),
{
    let mut buf: Vec<u8> = Vec::new();
    buf.push(HCI_COMMAND_PKT);
    push_u16_le(&mut buf, DISCONNECT_CMD);
    buf.push(3);
    push_u16_le(&mut buf, handle);
    buf.push(HCI_OE_USER_ENDED_CONNECTION);
    assert(buf@ =~= disconnect_command_spec(handle));
    buf
}

/// Whether an inbound PDU is pushed by the peer (a notification or an
/// indication) rather than answering a request.
pub open spec fn is_push_spec(data: Seq<u8>) -> bool {
    data.len() > 0 && (data[0] == ATT_OP_VALUE_NOTIFICATION || data[0] == ATT_OP_VALUE_INDICATION)
}

pub fn is_push(data: &[u8]) -> (r: bool)
    ensures
        r == is_push_spec(data@),
{
    data.len() > 0 && (data[0] == ATT_OP_VALUE_NOTIFICATION || data[0] == ATT_OP_VALUE_INDICATION)
}

} // verus!
