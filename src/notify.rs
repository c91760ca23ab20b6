use vstd::prelude::*;

use crate::att::{
    le16, read_by_type_request, read_by_type_spec, write_request, write_request_spec,
    GATT_CLIENT_CHARAC_CFG_UUID,
};
use crate::characteristic::{CharPropFlags, Characteristic, INDICATE, NOTIFY};

verus! {

/// Bit of the client configuration value that turns notifications on.
pub const CFG_NOTIFY_BIT: u16 = 0x0001;
/// Bit of the client configuration value that turns indications on.
pub const CFG_INDICATE_BIT: u16 = 0x0002;

/// The configuration bit that subscribing toggles for a characteristic with
/// these properties: notify if it can notify, else indicate if it can
/// indicate, else none.
pub open spec fn toggled_bit(flags: CharPropFlags) -> u16 {
    if flags.has(NOTIFY) {
        CFG_NOTIFY_BIT
    } else if flags.has(INDICATE) {
        CFG_INDICATE_BIT
    } else {
        0
    }
}

/// The configuration value to write back: `value` with the toggled bit set
/// (`enable`) or cleared.
pub open spec fn config_value_spec(flags: CharPropFlags, value: u16, enable: bool) -> u16 {
    if enable {
        value | toggled_bit(flags)
    } else {
        value & !toggled_bit(flags)
    }
}

pub fn config_value(flags: CharPropFlags, value: u16, enable: bool) -> (r: u16)
    ensures
        r == config_value_spec(flags, value, enable),
{
    let use_notify = flags.contains(NOTIFY);
    let use_indicate = flags.contains(INDICATE);
    let bit: u16 = if use_notify {
        CFG_NOTIFY_BIT
    } else if use_indicate {
        CFG_INDICATE_BIT
    } else {
        0
    };
    if enable {
        value | bit
    } else {
        value & !bit
    }
}

/// The request that reads a characteristic's client configuration descriptor.
pub open spec fn config_read_spec(c: Characteristic) -> Seq<u8> {
    read_by_type_spec(c.start_handle, c.end_handle, GATT_CLIENT_CHARAC_CFG_UUID)
}

/// The request that writes the updated configuration value to the
/// descriptor found at `handle`, whose value was `value`.
pub open spec fn config_write_spec(c: Characteristic, handle: u16, value: u16, enable: bool) -> Seq<u8> {
    write_request_spec(handle, le16(config_value_spec(c.properties, value, enable)))
}

pub fn config_read_request(c: &Characteristic) -> (r: Vec<u8>)
    ensures
        r@ == config_read_spec(*c),
{
    read_by_type_request(c.start_handle, c.end_handle, GATT_CLIENT_CHARAC_CFG_UUID)
}

pub fn config_write_request(c: &Characteristic, handle: u16, value: u16, enable: bool) -> (r: Vec<u8>)
    ensures
        r@ == config_write_spec(*c, handle, value, enable),
{
    let v = config_value(c.properties, value, enable);
    let bytes: [u8; 2] = [(v % 256) as u8, (v / 256) as u8];
    assert(bytes@ =~= le16(v));
    write_request(handle, bytes.as_slice())
}

/// Subscribing sets the toggled bit and unsubscribing clears it; neither
/// touches any other bit of the configuration value.
pub proof fn lemma_toggle(flags: CharPropFlags, v1: u16, v2: u16)
    ensures
        config_value_spec(flags, v1, true) & toggled_bit(flags) == toggled_bit(flags),
        config_value_spec(flags, v2, false) & toggled_bit(flags) == 0,
        config_value_spec(flags, v1, true) & !toggled_bit(flags) == v1 & !toggled_bit(flags),
        config_value_spec(flags, v2, false) & !toggled_bit(flags) == v2 & !toggled_bit(flags),
{
    let b = toggled_bit(flags);
    assert((v1 | b) & b == b) by (bit_vector);
    assert((v2 & !b) & b == 0) by (bit_vector);
    assert((v1 | b) & !b == v1 & !b) by (bit_vector);
    assert((v2 & !b) & !b == v2 & !b) by (bit_vector);
}

/// Unsubscribing undoes subscribing: where the toggled bit was clear, the
/// value written by `unsubscribe` after the one written by `subscribe` is
/// the value the descriptor held before.
pub proof fn lemma_unsubscribe_undoes(flags: CharPropFlags, v: u16)
    requires
        v & toggled_bit(flags) == 0,
    ensures
        config_value_spec(flags, config_value_spec(flags, v, true), false) == v,
{
    let b = toggled_bit(flags);
    assert(v & b == 0 ==> (v | b) & !b == v) by (bit_vector);
}

} // verus!
