//! Subnet enumeration for discovery.
//!
//! When broadcast datagrams do not reach the host, the joiner scans its
//! local subnet instead: every host address of the network, skipping the
//! network address and the broadcast address. Addresses are plain 32-bit
//! values here; the socket layer outside turns them into peer addresses.

use vstd::prelude::*;

verus! {

/// The network address of a /20 subnet: the host bits cleared.
pub open spec fn subnet_network(base_ip: u32) -> u32 {
    (base_ip >> 12) << 12
}

/// The candidate host addresses of the local subnet, in scan order.
///
/// Only the /20 prefix the deployment uses is enumerated, and of its host
/// range only the last octet's 1..=254 — the network and broadcast
/// addresses are skipped. Any other prefix yields no candidates, so the
/// caller falls back to broadcast alone.
pub fn subnet_hosts(base_ip: u32, prefix_len: u8) -> (r: Vec<u32>)
    ensures
        prefix_len == 20 ==> r@.len() == 254 && (forall|i: int|
            0 <= i < 254 ==> r@[i] == (subnet_network(base_ip) | ((i + 1) as u32))),
        prefix_len != 20 ==> r@.len() == 0,
{
    let mut r: Vec<u32> = Vec::new();
    if prefix_len != 20 {
        return r;
    }
    let net: u32 = (base_ip >> 12) << 12;
    let mut host: u32 = 1;
    while host <= 254
        invariant
            net == subnet_network(base_ip),
            1 <= host <= 255,
            r@.len() == host - 1,
            forall|i: int| 0 <= i < r@.len() ==> r@[i] == (net | ((i + 1) as u32)),
        decreases 255 - host,
    {
        r.push(net | host);
        host = host + 1;
    }
    r
}

} // verus!
