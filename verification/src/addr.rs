//! Plain-value model of the host's public IP addresses.
//!
//! An IPv4 address is held as its 32 numeric bits, an IPv6 address as
//! its 128 numeric bits, so that equality of two addresses is equality
//! of integers and the change-detection logic can be reasoned about
//! directly.

use vstd::prelude::*;

verus! {

/// A public IP address of either family, as plain bits.
#[derive(Clone, Copy, PartialEq, Eq, Structural, Debug)]
pub enum IpAddress {
    V4 { bits: u32 },
    V6 { bits: u128 },
}

/// The DNS record type that an address of each family belongs in:
/// `A` records hold IPv4 addresses, `Aaaa` records IPv6 addresses.
#[derive(Clone, Copy, PartialEq, Eq, Structural, Debug)]
pub enum RecordType {
    A,
    Aaaa,
}

impl IpAddress {
    /// Builds an IPv4 address from its four dotted-quad octets,
    /// most significant first.
    pub fn v4_from_octets(a: u8, b: u8, c: u8, d: u8) -> (r: IpAddress)
        ensures
            (r matches IpAddress::V4 { bits } && bits
                == a * 0x1000000 + b * 0x10000 + c * 0x100 + d),
    {
        let bits: u32 = ((a as u32) << 24) | ((b as u32) << 16) | ((c as u32) << 8) | (d as u32);
        proof {
            assert(((a as u32) << 24) | ((b as u32) << 16) | ((c as u32) << 8) | (d as u32)
                == (a as u32) * 0x1000000 + (b as u32) * 0x10000 + (c as u32) * 0x100
                + (d as u32)) by (bit_vector);
        }
        IpAddress::V4 { bits }
    }

    /// The record type that this address updates.
    pub fn record_type(&self) -> (r: RecordType)
        ensures
            r == (match self {
                IpAddress::V4 { .. } => RecordType::A,
                IpAddress::V6 { .. } => RecordType::Aaaa,
            }),
    {
        match self {
            IpAddress::V4 { .. } => RecordType::A,
            IpAddress::V6 { .. } => RecordType::Aaaa,
        }
    }
}

} // verus!
