use vstd::prelude::*;

use super::strings::{decimal, decimal_string};

verus! {

/// "host:port", the form a socket address is bound or resolved from.
pub open spec fn host_port_text(host: Seq<char>, port: u16) -> Seq<char> {
    host + ":"@ + decimal(port as nat)
}

/// The "host:port" text for `host` and `port`.
pub fn host_port(host: &str, port: u16) -> (out: String)
    ensures
        out@ == host_port_text(host@, port),
{
    let mut out = host.to_string();
    out.append(":");
    out.append(decimal_string(port as usize).as_str());
    out
}

/// The position of the first IPv4 address among resolved addresses, given whether each one is
/// IPv4.
pub fn first_ipv4(is_ipv4: &Vec<bool>) -> (out: Option<usize>)
    ensures
        match out {
            Some(i) => i < is_ipv4.len() && is_ipv4@[i as int] && forall|j: int|
                0 <= j < i ==> !#[trigger] is_ipv4@[j],
            None => forall|j: int| 0 <= j < is_ipv4.len() ==> !#[trigger] is_ipv4@[j],
        },
{
    let mut i: usize = 0;
    while i < is_ipv4.len()
        invariant
            i <= is_ipv4.len(),
            forall|j: int| 0 <= j < i ==> !#[trigger] is_ipv4@[j],
        decreases is_ipv4.len() - i,
    {
        if is_ipv4[i] {
            return Some(i);
        }
        i = i + 1;
    }
    None
}

} // verus!
