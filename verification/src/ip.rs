//! Classification of IP literals into the standard IANA categories used by
//! the filter: private, link-local and loopback addresses.

use vstd::prelude::*;

use crate::uri::HostIp;

verus! {

/// A private address: RFC 1918 for IPv4 (`10.0.0.0/8`, `172.16.0.0/12`,
/// `192.168.0.0/16`), the unique-local block `fc00::/7` for IPv6.
pub open spec fn spec_is_private(ip: HostIp) -> bool {
    match ip {
        HostIp::V4(a, b, _c, _d) => a == 10 || (a == 172 && 16 <= b < 32) || (a == 192 && b
            == 168),
        HostIp::V6(a, ..) => 0xfc00 <= a < 0xfe00,
    }
}

/// A link-local address: `169.254.0.0/16` for IPv4, `fe80::/10` for IPv6.
pub open spec fn spec_is_link_local(ip: HostIp) -> bool {
    match ip {
        HostIp::V4(a, b, _c, _d) => a == 169 && b == 254,
        HostIp::V6(a, ..) => 0xfe80 <= a < 0xfec0,
    }
}

/// A loopback address: `127.0.0.0/8` for IPv4, `::1` for IPv6.
pub open spec fn spec_is_loopback(ip: HostIp) -> bool {
    match ip {
        HostIp::V4(a, _b, _c, _d) => a == 127,
        HostIp::V6(a, b, c, d, e, f, g, h) => a == 0 && b == 0 && c == 0 && d == 0 && e == 0 && f
            == 0 && g == 0 && h == 1,
    }
}

/// Whether `ip` is a private address.
pub fn is_private(ip: &HostIp) -> (r: bool)
    ensures
        r == spec_is_private(*ip),
{
    match ip {
        HostIp::V4(a, b, _, _) => *a == 10 || (*a == 172 && 16 <= *b && *b < 32) || (*a == 192
            && *b == 168),
        HostIp::V6(a, ..) => 0xfc00 <= *a && *a < 0xfe00,
    }
}

/// Whether `ip` is a link-local address.
pub fn is_link_local(ip: &HostIp) -> (r: bool)
    ensures
        r == spec_is_link_local(*ip),
{
    match ip {
        HostIp::V4(a, b, _, _) => *a == 169 && *b == 254,
        HostIp::V6(a, ..) => 0xfe80 <= *a && *a < 0xfec0,
    }
}

/// Whether `ip` is a loopback address.
pub fn is_loopback(ip: &HostIp) -> (r: bool)
    ensures
        r == spec_is_loopback(*ip),
{
    match ip {
        HostIp::V4(a, _, _, _) => *a == 127,
        HostIp::V6(a, b, c, d, e, f, g, h) => *a == 0 && *b == 0 && *c == 0 && *d == 0 && *e == 0
            && *f == 0 && *g == 0 && *h == 1,
    }
}

} // verus!
