//! Choosing among the addresses that a host name resolves to.

use crate::error::ConnectError;
use vstd::prelude::*;

verus! {

/// Picks the address to connect to: the first IPv4 address among those the
/// lookup gave, each told by whether it is one. A lookup without an IPv4
/// address fails the connection.
pub fn select_ipv4(is_ipv4: &Vec<bool>) -> (choice: Result<usize, ConnectError>)
    ensures
        match choice {
            Ok(at) => {
                &&& at < is_ipv4.len()
                &&& is_ipv4[at as int]
                &&& forall|k: int| 0 <= k < at ==> !is_ipv4[k]
            },
            Err(error) => {
                &&& error == ConnectError::NoIpv4Address
                &&& forall|k: int| 0 <= k < is_ipv4.len() ==> !is_ipv4[k]
            },
        },
{
    let mut at: usize = 0;
    while at < is_ipv4.len()
        invariant
            at <= is_ipv4.len(),
            forall|k: int| 0 <= k < at ==> !is_ipv4[k],
        decreases is_ipv4.len() - at,
    {
        if is_ipv4[at] {
            return Ok(at);
        }
        at = at + 1;
    }
    Err(ConnectError::NoIpv4Address)
}

} // verus!
