use vstd::prelude::*;

verus! {

/// Length of the six-byte hardware address.
pub const ADDRESS_LEN: usize = 6;

/// A Bluetooth device address: six bytes, least significant first.
#[derive(Clone, Copy, Debug)]
pub struct BDAddr {
    pub address: [u8; 6],
}

impl BDAddr {
    /// Compares two addresses byte by byte.
    pub fn same_as(&self, other: &BDAddr) -> (r: bool)
        ensures
            r == (self.address@ == other.address@),
    {
        let mut i: usize = 0;
        while i < ADDRESS_LEN
            invariant
                i <= ADDRESS_LEN,
                self.address@.len() == ADDRESS_LEN,
                other.address@.len() == ADDRESS_LEN,
                forall|j: int| 0 <= j < i ==> self.address@[j] == other.address@[j],
            decreases ADDRESS_LEN - i,
        {
            if self.address[i] != other.address[i] {
                return false;
            }
            i = i + 1;
        }
        assert(self.address@ =~= other.address@);
        true
    }
}

/// Whether an address is a public one or a random one.
#[derive(Clone, Copy, Debug, PartialEq, Eq, Structural)]
pub enum AddressType {
    Random,
    Public,
}

impl AddressType {
    /// The number the controller uses for this address type.
    pub fn num(&self) -> (r: u8)
        ensures
            r == (if *self == AddressType::Public { 0u8 } else { 1u8 }),
    {
        match self {
            AddressType::Public => 0,
            AddressType::Random => 1,
        }
    }
}

/// Failures of the session.
#[derive(Debug)]
pub enum Error {
    PermissionDenied,
    DeviceNotFound,
    NotConnected,
    NotSupported(String),
    /// No connection-complete event came within the given number of seconds.
    TimedOut(u64),
    /// An operating-system call failed with the given error number.
    System(i32),
    Other(String),
}

} // verus!
