use vstd::prelude::*;

use crate::att::{is_push_spec, ATT_OP_READ_BY_TYPE_RESP, ATT_OP_VALUE_INDICATION, ATT_OP_VALUE_NOTIFICATION};
use crate::characteristic::{CharPropFlags, Characteristic, Uuid};

verus! {

/// Item length of a declaration with a 16-bit UUID.
pub const DECL_LEN_SHORT: u8 = 7;
/// Item length of a declaration with a 128-bit UUID.
pub const DECL_LEN_LONG: u8 = 21;
/// Item length of a configuration descriptor: handle and 16-bit value.
pub const CFG_ITEM_LEN: u8 = 4;

/// The little-endian 16-bit number at `d[i..i + 2]`.
pub open spec fn u16_at(d: Seq<u8>, i: int) -> u16 {
    (d[i] as u16) | ((d[i + 1] as u16) << 8u16)
}

/// The little-endian 128-bit number at `d[i..i + 16]`.
pub open spec fn u128_at(d: Seq<u8>, i: int) -> u128 {
    (d[i] as u128) | ((d[i + 1] as u128) << 8u128) | ((d[i + 2] as u128) << 16u128) | ((d[i
        + 3] as u128) << 24u128) | ((d[i + 4] as u128) << 32u128) | ((d[i + 5] as u128)
        << 40u128) | ((d[i + 6] as u128) << 48u128) | ((d[i + 7] as u128) << 56u128) | ((d[i
        + 8] as u128) << 64u128) | ((d[i + 9] as u128) << 72u128) | ((d[i + 10] as u128)
        << 80u128) | ((d[i + 11] as u128) << 88u128) | ((d[i + 12] as u128) << 96u128) | ((d[i
        + 13] as u128) << 104u128) | ((d[i + 14] as u128) << 112u128) | ((d[i + 15] as u128)
        << 120u128)
}

fn read_u16(d: &[u8], i: usize) -> (r: u16)
    requires
        i + 2 <= d@.len(),
    ensures
        r == u16_at(d@, i as int),
{
    (d[i] as u16) | ((d[i + 1] as u16) << 8u16)
}

fn read_u128(d: &[u8], i: usize) -> (r: u128)
    requires
        i + 16 <= d@.len(),
    ensures
        r == u128_at(d@, i as int),
{
    (d[i] as u128) | ((d[i + 1] as u128) << 8u128) | ((d[i + 2] as u128) << 16u128) | ((d[i
        + 3] as u128) << 24u128) | ((d[i + 4] as u128) << 32u128) | ((d[i + 5] as u128)
        << 40u128) | ((d[i + 6] as u128) << 48u128) | ((d[i + 7] as u128) << 56u128) | ((d[i
        + 8] as u128) << 64u128) | ((d[i + 9] as u128) << 72u128) | ((d[i + 10] as u128)
        << 80u128) | ((d[i + 11] as u128) << 88u128) | ((d[i + 12] as u128) << 96u128) | ((d[i
        + 13] as u128) << 104u128) | ((d[i + 14] as u128) << 112u128) | ((d[i + 15] as u128)
        << 120u128)
}

/// The declaration in the item of length `l` at `d[i..i + l]`: start
/// handle, properties, value handle, UUID. Its end handle is left at 0 for
/// the catalog to fix.
pub open spec fn decl_at(d: Seq<u8>, i: int, l: u8) -> Characteristic {
    Characteristic {
        start_handle: u16_at(d, i),
        end_handle: 0,
        value_handle: u16_at(d, i + 3),
        uuid: if l == DECL_LEN_SHORT {
            Uuid::B16(u16_at(d, i + 5))
        } else {
            Uuid::B128(u128_at(d, i + 5))
        },
        properties: CharPropFlags { bits: d[i + 2] },
    }
}

/// The declarations in `d[i..]`, items of length `l` back to back; `None`
/// where the bytes do not split into whole items.
pub open spec fn decls_from(d: Seq<u8>, i: int, l: u8) -> Option<Seq<Characteristic>>
    decreases d.len() - i,
{
    if i >= d.len() {
        Some(Seq::empty())
    } else if d.len() - i < l || l == 0 {
        None
    } else {
        match decls_from(d, i + l, l) {
            Some(rest) => Some(seq![decl_at(d, i, l)] + rest),
            None => None,
        }
    }
}

/// The declarations of a read-by-type response to a characteristic
/// discovery; `None` for any other PDU, such as an error response.
pub open spec fn characteristics_spec(d: Seq<u8>) -> Option<Seq<Characteristic>> {
    if d.len() >= 2 && d[0] == ATT_OP_READ_BY_TYPE_RESP && (d[1] == DECL_LEN_SHORT || d[1]
        == DECL_LEN_LONG) {
        decls_from(d, 2, d[1])
    } else {
        None
    }
}

/// Decodes the characteristic declarations of a discovery response.
pub fn characteristics(d: &[u8]) -> (r: Option<Vec<Characteristic>>)
    ensures
        match r {
            Some(v) => characteristics_spec(d@) == Some(v@),
            None => characteristics_spec(d@).is_none(),
        },
{
    if d.len() < 2 || d[0] != ATT_OP_READ_BY_TYPE_RESP || (d[1] != DECL_LEN_SHORT && d[1]
        != DECL_LEN_LONG) {
        return None;
    }
    let l = d[1];
    let mut out: Vec<Characteristic> = Vec::new();
    let mut i: usize = 2;
    while i < d.len()
        invariant
            2 <= i <= d@.len(),
            l == d@[1],
            l == DECL_LEN_SHORT || l == DECL_LEN_LONG,
            decls_from(d@, 2, l) == match decls_from(d@, i as int, l) {
                Some(rest) => Some(out@ + rest),
                None => None::<Seq<Characteristic>>,
            },
        decreases d@.len() - i,
    {
        if d.len() - i < l as usize {
            return None;
        }
        let uuid = if l == DECL_LEN_SHORT {
            Uuid::B16(read_u16(d, i + 5))
        } else {
            Uuid::B128(read_u128(d, i + 5))
        };
        let c = Characteristic {
            start_handle: read_u16(d, i),
            end_handle: 0,
            value_handle: read_u16(d, i + 3),
            uuid,
            properties: CharPropFlags { bits: d[i + 2] },
        };
        assert(c == decl_at(d@, i as int, l));
        let ghost before = out@;
        out.push(c);
        proof {
            match decls_from(d@, i + l, l) {
                Some(rest) => {
                    assert(before + (seq![c] + rest) =~= out@ + rest);
                },
                None => {},
            }
        }
        i = i + l as usize;
    }
    assert(out@ + Seq::<Characteristic>::empty() =~= out@);
    Some(out)
}

/// The handle and current value of the configuration descriptor in a
/// read-by-type response; `None` for any other PDU.
pub open spec fn config_response_spec(d: Seq<u8>) -> Option<(u16, u16)> {
    if d.len() >= 6 && d[0] == ATT_OP_READ_BY_TYPE_RESP && d[1] == CFG_ITEM_LEN {
        Some((u16_at(d, 2), u16_at(d, 4)))
    } else {
        None
    }
}

/// Decodes the configuration descriptor of a read-by-type response.
pub fn config_response(d: &[u8]) -> (r: Option<(u16, u16)>)
    ensures
        r == config_response_spec(d@),
{
    if d.len() >= 6 && d[0] == ATT_OP_READ_BY_TYPE_RESP && d[1] == CFG_ITEM_LEN {
        Some((read_u16(d, 2), read_u16(d, 4)))
    } else {
        None
    }
}

/// The attribute handle that a notification or indication is about; `None`
/// for any other PDU.
pub open spec fn push_handle_spec(d: Seq<u8>) -> Option<u16> {
    if is_push_spec(d) && d.len() >= 3 {
        Some(u16_at(d, 1))
    } else {
        None
    }
}

/// Decodes the attribute handle of a notification or indication.
pub fn push_handle(d: &[u8]) -> (r: Option<u16>)
    ensures
        r == push_handle_spec(d@),
{
    if d.len() >= 3 && (d[0] == ATT_OP_VALUE_NOTIFICATION || d[0] == ATT_OP_VALUE_INDICATION) {
        Some(read_u16(d, 1))
    } else {
        None
    }
}

} // verus!
