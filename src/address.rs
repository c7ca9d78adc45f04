use vstd::prelude::*;

verus! {

/// The address the server listens on: the one it was given; else the machine's
/// IPv4 address, else its IPv6 address, on the default port 2000; else the
/// loopback address on that port.
pub open spec fn listen_address_text(
    given: Option<Seq<char>>,
    ipv4: Option<Seq<char>>,
    ipv6: Option<Seq<char>>,
) -> Seq<char> {
    match (given, ipv4, ipv6) {
        (Some(a), _, _) => a,
        (None, Some(ip), _) => ip + ":2000"@,
        (None, None, Some(ip)) => ip + ":2000"@,
        (None, None, None) => "127.0.0.1:2000"@,
    }
}

/// The plain value of an optional string.
pub open spec fn opt_text(s: Option<String>) -> Option<Seq<char>> {
    match s {
        Some(t) => Some(t@),
        None => None,
    }
}

/// Chooses the address to listen on from the one given, if any, and the
/// machine's IPv4 and IPv6 addresses, where they could be found.
pub fn listen_address(given: Option<String>, ipv4: Option<String>, ipv6: Option<String>) -> (r:
    String)
    ensures
        r@ == listen_address_text(opt_text(given), opt_text(ipv4), opt_text(ipv6)),
{
    match given {
        Some(a) => a,
        None => match ipv4 {
            Some(ip) => ip.concat(":2000"),
            None => match ipv6 {
                Some(ip) => ip.concat(":2000"),
                None => String::from_str("127.0.0.1:2000"),
            },
        },
    }
}

} // verus!
