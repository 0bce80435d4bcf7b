//! The download agent's configuration: whether requests go through a
//! proxy, and through which.

use vstd::prelude::*;
use crate::protocol::opt_text;
use crate::text::{decimal, decimal_chars, from_chars};

verus! {

/// The address of the proxy at `host` and `port`, as the agent takes it.
pub open spec fn proxy_address(host: Seq<char>, port: u16) -> Seq<char> {
    host + ":"@ + decimal(port as nat)
}

/// The default download agent.
pub struct YaydlAgent;

impl YaydlAgent {
    /// The proxy that the agent is configured with, given the host and
    /// port that the environment names for the URL; none where it names
    /// none.
    pub fn proxy(found: Option<(String, u16)>) -> (r: Option<String>)
        ensures
            opt_text(r) == match found {
                Some(at) => Some(proxy_address(at.0@, at.1)),
                None => None,
            },
    {
        match found {
            Some(at) => {
                let mut address = at.0;
                address.push_str(":");
                address.push_str(from_chars(&decimal_chars(at.1 as u64)).as_str());
                Some(address)
            },
            None => None,
        }
    }
}

} // verus!
