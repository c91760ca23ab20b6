use vstd::prelude::*;
use vstd::string::StringExecFns;

use crate::peripheral::Peripheral;
use crate::properties::opt_string_view;
use crate::types::BDAddr;

verus! {

/// The sixteen hexadecimal digits, upper case.
pub open spec fn hex_digits() -> Seq<char> {
    seq!['0', '1', '2', '3', '4', '5', '6', '7', '8', '9', 'A', 'B', 'C', 'D', 'E', 'F']
}

/// A byte as two upper-case hexadecimal digits.
pub open spec fn byte_text(b: u8) -> Seq<char> {
    seq![hex_digits()[(b / 16) as int], hex_digits()[(b % 16) as int]]
}

/// An address as six bytes in hexadecimal, most significant first, joined
/// by colons.
pub open spec fn address_text(a: Seq<u8>) -> Seq<char> {
    byte_text(a[5]) + seq![':'] + byte_text(a[4]) + seq![':'] + byte_text(a[3]) + seq![':']
        + byte_text(a[2]) + seq![':'] + byte_text(a[1]) + seq![':'] + byte_text(a[0])
}

/// The one-line summary of a session: its address, its local name or
/// `(unknown)`, and ` connected` while a connection exists.
pub open spec fn summary_text(p: Peripheral) -> Seq<char> {
    address_text(p.address.address@) + seq![' '] + match opt_string_view(p.properties.local_name) {
        Some(n) => n,
        None => "(unknown)"@,
    } + if p.stream.is_some() {
        " connected"@
    } else {
        Seq::<char>::empty()
    }
}

fn hex_digit(n: u8) -> (r: &'static str)
    requires
        n < 16,
    ensures
        r@ == seq![hex_digits()[n as int]],
{
    match n {
        0 => {
            proof {
                reveal_strlit("0");
            }
            "0"
        },
        1 => {
            proof {
                reveal_strlit("1");
            }
            "1"
        },
        2 => {
            proof {
                reveal_strlit("2");
            }
            "2"
        },
        3 => {
            proof {
                reveal_strlit("3");
            }
            "3"
        },
        4 => {
            proof {
                reveal_strlit("4");
            }
            "4"
        },
        5 => {
            proof {
                reveal_strlit("5");
            }
            "5"
        },
        6 => {
            proof {
                reveal_strlit("6");
            }
            "6"
        },
        7 => {
            proof {
                reveal_strlit("7");
            }
            "7"
        },
        8 => {
            proof {
                reveal_strlit("8");
            }
            "8"
        },
        9 => {
            proof {
                reveal_strlit("9");
            }
            "9"
        },
        10 => {
            proof {
                reveal_strlit("A");
            }
            "A"
        },
        11 => {
            proof {
                reveal_strlit("B");
            }
            "B"
        },
        12 => {
            proof {
                reveal_strlit("C");
            }
            "C"
        },
        13 => {
            proof {
                reveal_strlit("D");
            }
            "D"
        },
        14 => {
            proof {
                reveal_strlit("E");
            }
            "E"
        },
        _ => {
            proof {
                reveal_strlit("F");
            }
            "F"
        },
    }
}

fn append_byte(s: &mut String, b: u8)
    ensures
        final(s)@ == old(s)@ + byte_text(b),
{
    s.append(hex_digit(b / 16));
    s.append(hex_digit(b % 16));
    assert(final(s)@ =~= old(s)@ + byte_text(b));
}

/// The address as text: six bytes in hexadecimal, most significant first,
/// joined by colons.
pub fn address_string(a: &BDAddr) -> (r: String)
    ensures
        r@ == address_text(a.address@),
{
    proof {
        reveal_strlit("");
        reveal_strlit(":");
    }
    let mut s = String::from_str("");
    append_byte(&mut s, a.address[5]);
    s.append(":");
    append_byte(&mut s, a.address[4]);
    s.append(":");
    append_byte(&mut s, a.address[3]);
    s.append(":");
    append_byte(&mut s, a.address[2]);
    s.append(":");
    append_byte(&mut s, a.address[1]);
    s.append(":");
    append_byte(&mut s, a.address[0]);
    assert(s@ =~= address_text(a.address@));
    s
}

impl Peripheral {
    /// The one-line summary of the session: `<address> <name>`, with
    /// `(unknown)` for a device that gave no name, and ` connected` added
    /// while a connection exists.
    pub fn summary(&self) -> (r: String)
        ensures
            r@ == summary_text(*self),
    {
        proof {
            reveal_strlit(" ");
            reveal_strlit("(unknown)");
            reveal_strlit(" connected");
        }
        let mut s = address_string(&self.address);
        s.append(" ");
        match &self.properties.local_name {
            Some(n) => s.append(n.as_str()),
            None => s.append("(unknown)"),
        }
        if self.stream.is_some() {
            s.append(" connected");
        }
        assert(s@ =~= summary_text(*self));
        s
    }
}

} // verus!
