//! IP addresses and the private/local ranges that a phone on the internet
//! cannot reach.
use vstd::prelude::*;

verus! {

/// An IP address: four octets, or eight 16-bit segments.
#[derive(Debug)]
pub enum IpAddress {
    V4([u8; 4]),
    V6([u16; 8]),
}

/// Whether an IPv4 address is private, loopback, link-local or in `0.0.0.0/8`
/// (`Ipv4Addr::is_private`, `is_loopback`, `is_link_local`, first octet 0).
pub open spec fn is_private_v4(o: Seq<u8>) -> bool {
    ||| o[0] == 10
    ||| (o[0] == 172 && 16 <= o[1] <= 31)
    ||| (o[0] == 192 && o[1] == 168)
    ||| o[0] == 127
    ||| (o[0] == 169 && o[1] == 254)
    ||| o[0] == 0
}

/// Whether an IPv6 address is loopback (`::1`), unique local (`fc00::/7`) or
/// unicast link-local (`fe80::/10`).
pub open spec fn is_private_v6(s: Seq<u16>) -> bool {
    ||| (s[0] == 0 && s[1] == 0 && s[2] == 0 && s[3] == 0 && s[4] == 0 && s[5] == 0 && s[6] == 0
        && s[7] == 1)
    ||| (s[0] & 0xfe00) == 0xfc00
    ||| (s[0] & 0xffc0) == 0xfe80
}

/// Whether `ip` is an address that only a local network or VPN can reach.
pub open spec fn is_private_ip_spec(ip: IpAddress) -> bool {
    match ip {
        IpAddress::V4(o) => is_private_v4(o@),
        IpAddress::V6(s) => is_private_v6(s@),
    }
}

/// Whether `ip` is a private, loopback or link-local address.
pub fn is_private_ip(ip: &IpAddress) -> (b: bool)
    ensures
        b == is_private_ip_spec(*ip),
{
    match ip {
        IpAddress::V4(o) => {
            o[0] == 10 || (o[0] == 172 && 16 <= o[1] && o[1] <= 31) || (o[0] == 192 && o[1] == 168)
                || o[0] == 127 || (o[0] == 169 && o[1] == 254) || o[0] == 0
        },
        IpAddress::V6(s) => {
            (s[0] == 0 && s[1] == 0 && s[2] == 0 && s[3] == 0 && s[4] == 0 && s[5] == 0 && s[6]
                == 0 && s[7] == 1) || (s[0] & 0xfe00) == 0xfc00 || (s[0] & 0xffc0) == 0xfe80
        },
    }
}

/// An IPv4 address counts as private exactly when its network is `10/8`,
/// `172.16/12`, `192.168/16`, loopback `127/8`, link-local `169.254/16` or
/// `0/8`: the verdict depends only on the first two octets, so every host of
/// such a network (all of `192.168.x.y`, say) is private.
pub proof fn law_private_v4_is_by_network(o: [u8; 4], p: [u8; 4])
    ensures
        is_private_ip_spec(IpAddress::V4(o)) <==> (o[0] == 10 || (o[0] == 172 && 16 <= o[1] <= 31)
            || (o[0] == 192 && o[1] == 168) || o[0] == 127 || (o[0] == 169 && o[1] == 254) || o[0]
            == 0),
        o[0] == p[0] && o[1] == p[1] ==> is_private_ip_spec(IpAddress::V4(o)) == is_private_ip_spec(
            IpAddress::V4(p),
        ),
{
}

/// Every IPv6 address in `fc00::/7` (unique local) or `fe80::/10` (link
/// local), and the loopback `::1`, counts as private.
pub proof fn law_private_v6_ranges(s: [u16; 8])
    ensures
        0xfc00 <= s[0] <= 0xfdff ==> is_private_ip_spec(IpAddress::V6(s)),
        0xfe80 <= s[0] <= 0xfebf ==> is_private_ip_spec(IpAddress::V6(s)),
        s@ == seq![0u16, 0, 0, 0, 0, 0, 0, 1] ==> is_private_ip_spec(IpAddress::V6(s)),
{
    let x = s[0];
    assert(0xfc00 <= x <= 0xfdff ==> (x & 0xfe00) == 0xfc00) by (bit_vector);
    assert(0xfe80 <= x <= 0xfebf ==> (x & 0xffc0) == 0xfe80) by (bit_vector);
    if s@ == seq![0u16, 0, 0, 0, 0, 0, 0, 1] {
        assert(s@[7] == 1);
    }
}

/// Whether two addresses are the same address.
pub open spec fn same_ip(a: IpAddress, b: IpAddress) -> bool {
    match (a, b) {
        (IpAddress::V4(x), IpAddress::V4(y)) => x@ == y@,
        (IpAddress::V6(x), IpAddress::V6(y)) => x@ == y@,
        _ => false,
    }
}

/// Compares two addresses.
pub fn ip_eq(a: &IpAddress, b: &IpAddress) -> (r: bool)
    ensures
        r == same_ip(*a, *b),
{
    match (a, b) {
        (IpAddress::V4(x), IpAddress::V4(y)) => {
            let r = x[0] == y[0] && x[1] == y[1] && x[2] == y[2] && x[3] == y[3];
            assert(r ==> x@ =~= y@);
            r
        },
        (IpAddress::V6(x), IpAddress::V6(y)) => {
            let mut i: usize = 0;
            let mut eq = true;
            while i < 8
                invariant
                    i <= 8,
                    x@.len() == 8,
                    y@.len() == 8,
                    eq == (forall|k: int| 0 <= k < i ==> x@[k] == y@[k]),
                decreases 8 - i,
            {
                if x[i] != y[i] {
                    eq = false;
                }
                i = i + 1;
            }
            if eq {
                assert(x@ =~= y@);
            } else {
                assert(x@ != y@);
            }
            eq
        },
        _ => false,
    }
}

/// Whether the credentials host resolved, but not to the SSH target: at
/// least one address came back and none is `target`.
pub open spec fn resolves_elsewhere_spec(resolved: Seq<IpAddress>, target: IpAddress) -> bool {
    resolved.len() > 0 && forall|i: int| 0 <= i < resolved.len() ==> !same_ip(resolved[i], target)
}

/// Decides whether the resolved addresses of the credentials host miss the SSH target.
pub fn resolves_elsewhere(resolved: &Vec<IpAddress>, target: &IpAddress) -> (b: bool)
    ensures
        b == resolves_elsewhere_spec(resolved@, *target),
{
    if resolved.len() == 0 {
        return false;
    }
    let mut i: usize = 0;
    while i < resolved.len()
        invariant
            i <= resolved@.len(),
            forall|k: int| 0 <= k < i ==> !same_ip(resolved@[k], *target),
        decreases resolved@.len() - i,
    {
        if ip_eq(&resolved[i], target) {
            return false;
        }
        i = i + 1;
    }
    true
}

/// The credentials host resolves elsewhere exactly when the lookup gave some
/// address and none of them is the SSH target's: an empty lookup, or one that
/// includes the target, raises no warning.
pub proof fn law_resolves_elsewhere(resolved: Seq<IpAddress>, target: IpAddress)
    ensures
        resolves_elsewhere_spec(resolved, target) ==> resolved.len() > 0,
        resolves_elsewhere_spec(resolved, target) ==> forall|i: int|
            0 <= i < resolved.len() ==> !same_ip(#[trigger] resolved[i], target),
        (exists|i: int| 0 <= i < resolved.len() && #[trigger] same_ip(resolved[i], target))
            ==> !resolves_elsewhere_spec(resolved, target),
        resolved.len() > 0 && (forall|i: int| 0 <= i < resolved.len() ==> !#[trigger] same_ip(
            resolved[i],
            target,
        )) ==> resolves_elsewhere_spec(resolved, target),
{
}

} // verus!
