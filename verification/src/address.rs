use vstd::prelude::*;

verus! {

/// An IP address, given by its octets in network order.
#[derive(Clone, Copy, Debug, PartialEq, Eq)]
pub enum IpAddress {
    V4([u8; 4]),
    V6([u8; 16]),
}

} // verus!
