//! The address the control API listens on, and the URL by which local
//! clients reach it.

use vstd::prelude::*;

use crate::text::{decimal, decimal_text};

verus! {

/// The host part of the listening address. An IPv4 host is held as its
/// four octets; an IPv6 host as its standard text form and whether it is
/// the unspecified address `::`.
pub enum BindHost {
    V4 { a: u8, b: u8, c: u8, d: u8 },
    V6 { text: String, unspecified: bool },
}

/// The listening address: host and TCP port.
pub struct BindAddress {
    pub host: BindHost,
    pub port: u16,
}

/// A well-formed host: the text of an IPv6 host holds a colon, as every
/// IPv6 address written out does.
pub open spec fn host_valid(h: BindHost) -> bool {
    match h {
        BindHost::V4 { .. } => true,
        BindHost::V6 { text, .. } => text@.contains(':'),
    }
}

/// Dotted-decimal text of an IPv4 address.
pub open spec fn dotted(a: u8, b: u8, c: u8, d: u8) -> Seq<char> {
    decimal(a as nat) + "."@ + decimal(b as nat) + "."@ + decimal(c as nat) + "."@ + decimal(d as nat)
}

/// The host that local clients use: the loopback address of the same family
/// when the receiver listens on the unspecified address, the listening host
/// otherwise.
pub open spec fn client_host(h: BindHost) -> Seq<char> {
    match h {
        BindHost::V4 { a, b, c, d } => if a == 0 && b == 0 && c == 0 && d == 0 {
            "127.0.0.1"@
        } else {
            dotted(a, b, c, d)
        },
        BindHost::V6 { text, unspecified } => if unspecified {
            "::1"@
        } else {
            text@
        },
    }
}

/// A host as it stands in a URL: in brackets when it holds a colon.
pub open spec fn url_host(host: Seq<char>) -> Seq<char> {
    if host.contains(':') {
        "["@ + host + "]"@
    } else {
        host
    }
}

/// The base URL of the local control API.
pub open spec fn base_url(addr: BindAddress) -> Seq<char> {
    "http://"@ + url_host(client_host(addr.host)) + ":"@ + decimal(addr.port as nat)
}

fn client_host_text(h: &BindHost) -> (r: String)
    ensures
        r@ == client_host(*h),
{
    match h {
        BindHost::V4 { a, b, c, d } => {
            if *a == 0 && *b == 0 && *c == 0 && *d == 0 {
                String::from_str("127.0.0.1")
            } else {
                let mut s = decimal_text(*a as u64);
                s.append(".");
                s.append(decimal_text(*b as u64).as_str());
                s.append(".");
                s.append(decimal_text(*c as u64).as_str());
                s.append(".");
                s.append(decimal_text(*d as u64).as_str());
                s
            }
        },
        BindHost::V6 { text, unspecified } => {
            if *unspecified {
                String::from_str("::1")
            } else {
                text.clone()
            }
        },
    }
}

fn has_colon(s: &str) -> (r: bool)
    ensures
        r == s@.contains(':'),
{
    let n = s.unicode_len();
    let mut i: usize = 0;
    while i < n
        invariant
            n == s@.len(),
            i <= n,
            forall|j: int| 0 <= j < i ==> s@[j] != ':',
        decreases n - i,
    {
        if s.get_char(i) == ':' {
            assert(s@[i as int] == ':');
            return true;
        }
        i = i + 1;
    }
    false
}

/// Whether `h` is a well-formed host.
pub fn host_is_valid(h: &BindHost) -> (r: bool)
    ensures
        r == host_valid(*h),
{
    match h {
        BindHost::V4 { .. } => true,
        BindHost::V6 { text, .. } => has_colon(text.as_str()),
    }
}

/// The base URL of the local control API, e.g. `http://127.0.0.1:9760`.
pub fn local_api_base_url(addr: &BindAddress) -> (r: String)
    ensures
        r@ == base_url(*addr),
{
    let host = client_host_text(&addr.host);
    let mut url = String::from_str("http://");
    if has_colon(host.as_str()) {
        url.append("[");
        url.append(host.as_str());
        url.append("]");
    } else {
        url.append(host.as_str());
    }
    url.append(":");
    url.append(decimal_text(addr.port as u64).as_str());
    url
}

} // verus!
