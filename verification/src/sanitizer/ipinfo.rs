//! What an address lookup says of an address.

use vstd::prelude::*;
use vstd::string::StringExecFns;

verus! {

/// Whether an address is a VPN, a proxy or a Tor exit, as far as known.
#[derive(Debug, Clone, Copy, PartialEq, Eq, Structural)]
pub struct IpInfoSecurity {
    pub vpn: Option<bool>,
    pub proxy: Option<bool>,
    pub tor: Option<bool>,
}

/// The answer of the lookup service.
#[derive(Debug, Clone, Copy, PartialEq, Eq, Structural)]
pub struct IpInfoResponse {
    pub security: Option<IpInfoSecurity>,
}

/// The URL that is asked about an address.
pub fn ipinfo_endpoint(ip: &str, token: &str) -> (url: String)
    ensures
        url@ == "https://ipinfo.io/"@ + ip@ + "/security?token="@ + token@,
{
    String::from_str("https://ipinfo.io/").concat(ip).concat("/security?token=").concat(token)
}

/// What is known of an address: the answer's security part, or nothing
/// known where the answer has none.
pub fn security_of(resp: IpInfoResponse) -> (s: IpInfoSecurity)
    ensures
        s == match resp.security {
            Some(sec) => sec,
            None => (IpInfoSecurity { vpn: None, proxy: None, tor: None }),
        },
{
    match resp.security {
        Some(sec) => sec,
        None => IpInfoSecurity { vpn: None, proxy: None, tor: None },
    }
}

} // verus!
