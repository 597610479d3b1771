//! The rules of the local compatibility route placed in front of the development
//! server: which `Origin` headers it translates, and how it names the server.
use vstd::prelude::*;
use vstd::string::StringExecFns;

use crate::text::{decimal, has_prefix, port_text, same_text, starts_with_text};

verus! {

/// The address under which the development server knows itself.
pub open spec fn development_origin(target_port: u16) -> Seq<char> {
    "http://localhost:"@ + decimal(target_port as nat)
}

/// The `Origin` that a request for a Next.js development asset carries, translated to
/// the development server's own origin, but only where it is exactly the validated
/// public origin.
pub open spec fn translated_origin(
    path: Seq<char>,
    incoming_origin: Seq<char>,
    public_origin: Option<Seq<char>>,
    target_port: u16,
) -> Option<Seq<char>> {
    if has_prefix(path, "/_next/"@) && public_origin == Some(incoming_origin) {
        Some(development_origin(target_port))
    } else {
        None
    }
}

/// Translates the `Origin` of a Next.js development request made through the public
/// URL to the development server's own origin.
pub fn translated_development_origin(
    path: &str,
    incoming_origin: &str,
    public_origin: Option<&str>,
    target_port: u16,
) -> (r: Option<String>)
    ensures
        match r {
            Some(s) => translated_origin(
                path@,
                incoming_origin@,
                match public_origin {
                    Some(p) => Some(p@),
                    None => None,
                },
                target_port,
            ) == Some(s@),
            None => translated_origin(
                path@,
                incoming_origin@,
                match public_origin {
                    Some(p) => Some(p@),
                    None => None,
                },
                target_port,
            ) is None,
        },
{
    if !starts_with_text(path, "/_next/") {
        return None;
    }
    let matches_public = match public_origin {
        Some(p) => same_text(p, incoming_origin),
        None => false,
    };
    if !matches_public {
        return None;
    }
    let mut r = "http://localhost:".to_owned();
    let digits = port_text(target_port);
    r.append(digits.as_str());
    Some(r)
}

/// The `Host` under which requests are passed to the development server.
pub fn development_authority(target_port: u16) -> (r: String)
    ensures
        r@ == "localhost:"@ + decimal(target_port as nat),
{
    let mut r = "localhost:".to_owned();
    let digits = port_text(target_port);
    r.append(digits.as_str());
    r
}


/// The address of a peer of the compatibility route.
#[derive(Debug, Clone, Copy, PartialEq, Eq, Structural)]
pub enum PeerAddress {
    V4(u8, u8, u8, u8),
    V6(u16, u16, u16, u16, u16, u16, u16, u16),
}

/// A loopback address: `127.0.0.0/8`, or `::1`.
pub open spec fn is_loopback(peer: PeerAddress) -> bool {
    match peer {
        PeerAddress::V4(a, _, _, _) => a == 127,
        PeerAddress::V6(a, b, c, d, e, f, g, h) => a == 0 && b == 0 && c == 0 && d == 0 && e
            == 0 && f == 0 && g == 0 && h == 1,
    }
}

/// The route serves only peers on this machine.
pub fn serves_peer(peer: PeerAddress) -> (r: bool)
    ensures
        r == is_loopback(peer),
{
    match peer {
        PeerAddress::V4(a, _, _, _) => a == 127,
        PeerAddress::V6(a, b, c, d, e, f, g, h) => a == 0 && b == 0 && c == 0 && d == 0 && e
            == 0 && f == 0 && g == 0 && h == 1,
    }
}

} // verus!
