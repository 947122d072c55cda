use vstd::prelude::*;
use crate::error::HttpError;

verus! {

/// The IP half of a socket address, held as plain numeric values.
#[derive(Clone, Copy, PartialEq, Eq, Structural, Debug)]
pub enum IpAddress {
    /// The four dotted-quad octets of an IPv4 address.
    V4(u8, u8, u8, u8),
    /// The eight 16-bit groups of an IPv6 address.
    V6(u16, u16, u16, u16, u16, u16, u16, u16),
}

/// A concrete, already-resolved socket address: an IP address and a port.
#[derive(Clone, Copy, PartialEq, Eq, Structural, Debug)]
pub struct Address {
    pub ip: IpAddress,
    pub port: u16,
}

impl Address {
    /// Builds an address from its parts.
    pub fn new(ip: IpAddress, port: u16) -> (a: Address)
        ensures
            a.ip == ip,
            a.port == port,
    {
        Address { ip, port }
    }
}

/// Picks the concrete address that a bind will use out of the set that name
/// resolution produced: the first candidate. An empty set means the input did
/// not resolve to any socket address and is rejected as `InvalidAddress` —
/// never as anything else.
pub fn to_addr(candidates: &Vec<Address>) -> (r: Result<Address, HttpError>)
    ensures
        candidates@.len() == 0 ==> r == Err::<Address, HttpError>(HttpError::InvalidAddress),
        candidates@.len() > 0 ==> r == Ok::<Address, HttpError>(candidates@[0]),
{
    if candidates.len() == 0 {
        Err(HttpError::InvalidAddress)
    } else {
        Ok(candidates[0])
    }
}

} // verus!
