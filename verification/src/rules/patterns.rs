use vstd::prelude::*;
use vstd::arithmetic::power2::pow2;

verus! {

/// Whether `Regex::new` accepts a pattern: its syntax is valid and the compiled program
/// stays within the crate's default size limit.
pub uninterp spec fn regex_compiles(pattern: Seq<char>) -> bool;

/// What `Regex::captures` finds for a compiled pattern in a haystack: `None` when the
/// pattern matches nowhere; otherwise the capture groups of the leftmost match, group 0
/// (the whole match) first, `None` for a group that took no part in the match.
pub uninterp spec fn regex_first_captures(pattern: Seq<char>, haystack: Seq<char>) -> Option<
    Seq<Option<Seq<char>>>,
>;

/// An optional text by its view.
pub open spec fn opt_text(o: Option<String>) -> Option<Seq<char>> {
    match o {
        Some(s) => Some(s@),
        None => None,
    }
}

/// The groups of a search result by their views.
pub open spec fn groups_view(found: Option<Vec<Option<String>>>) -> Option<Seq<Option<Seq<char>>>> {
    match found {
        Some(gs) => Some(gs@.map_values(|o: Option<String>| opt_text(o))),
        None => None,
    }
}

/// Compiles `pattern` with `Regex::new` and, where it compiles, searches `haystack` with
/// `Regex::captures`, handing each group out as an owned string. The contract claims that
/// the outer `None` comes exactly when the pattern does not compile, and that the search
/// result is `regex_first_captures` of the two texts.
#[verifier::external_body]
pub(crate) fn regex_captures(pattern: &str, haystack: &str) -> (r: Option<Option<Vec<Option<String>>>>)
    ensures
        r is Some <==> regex_compiles(pattern@),
        r matches Some(found) ==> groups_view(found) == regex_first_captures(pattern@, haystack@),
{
    match regex::Regex::new(pattern) {
        Ok(re) => Some(
            re.captures(haystack).map(
                |caps| caps.iter().map(|m| m.map(|m| m.as_str().to_string())).collect(),
            ),
        ),
        Err(_) => None,
    }
}

/// Compiles `pattern` with `Regex::new` and, where it compiles, asks `Regex::is_match`
/// whether it matches anywhere in `haystack`. The contract claims that `None` comes exactly
/// when the pattern does not compile, and, as the crate documents, that `is_match` is true
/// exactly when `captures` finds a match.
#[verifier::external_body]
pub(crate) fn regex_is_match(pattern: &str, haystack: &str) -> (r: Option<bool>)
    ensures
        r is Some <==> regex_compiles(pattern@),
        r matches Some(b) ==> b == regex_first_captures(pattern@, haystack@) is Some,
{
    match regex::Regex::new(pattern) {
        Ok(re) => Some(re.is_match(haystack)),
        Err(_) => None,
    }
}

/// An IP address: IPv4 as its 32-bit value, IPv6 as its 128-bit value.
#[derive(Clone, Copy, Debug, PartialEq, Eq, Structural)]
pub enum IpValue {
    V4(u32),
    V6(u128),
}

/// An IP network: an address and a prefix length.
#[derive(Clone, Copy, Debug, PartialEq, Eq, Structural)]
pub struct NetValue {
    pub addr: IpValue,
    pub prefix_len: u8,
}

/// The number of bits of an address of the family of `ip`.
pub open spec fn addr_width(ip: IpValue) -> nat {
    match ip {
        IpValue::V4(_) => 32,
        IpValue::V6(_) => 128,
    }
}

/// The prefix length of `net` fits its address family.
pub open spec fn prefix_fits(net: NetValue) -> bool {
    net.prefix_len as nat <= addr_width(net.addr)
}

/// What `IpAddr::from_str` parses from a text, if it is an IPv4 or IPv6 address.
pub uninterp spec fn ip_addr_from_text(text: Seq<char>) -> Option<IpValue>;

/// What `IpNet::from_str` parses from a text in CIDR notation, if it is one.
pub uninterp spec fn ip_net_from_text(text: Seq<char>) -> Option<NetValue>;

/// Parses an IP address with `IpAddr::from_str` and hands out its integer value. The
/// contract claims only that the result is `ip_addr_from_text` of the text.
#[verifier::external_body]
pub(crate) fn parse_ip_addr(text: &str) -> (r: Option<IpValue>)
    ensures
        r == ip_addr_from_text(text@),
{
    match text.parse::<core::net::IpAddr>() {
        Ok(core::net::IpAddr::V4(a)) => Some(IpValue::V4(u32::from(a))),
        Ok(core::net::IpAddr::V6(a)) => Some(IpValue::V6(u128::from(a))),
        Err(_) => None,
    }
}

/// Parses a network in CIDR notation with `IpNet::from_str` and hands out its address
/// and prefix length. The contract claims that the result is `ip_net_from_text` of the
/// text, and, as the crate's parser shows (it builds the network with `Ipv4Net::new` or
/// `Ipv6Net::new`, which refuse longer prefixes), that the prefix fits the family.
#[verifier::external_body]
pub(crate) fn parse_ip_net(text: &str) -> (r: Option<NetValue>)
    ensures
        r == ip_net_from_text(text@),
        r matches Some(n) ==> prefix_fits(n),
{
    match text.parse::<ipnet::IpNet>() {
        Ok(ipnet::IpNet::V4(n)) => Some(
            NetValue { addr: IpValue::V4(u32::from(n.addr())), prefix_len: n.prefix_len() },
        ),
        Ok(ipnet::IpNet::V6(n)) => Some(
            NetValue { addr: IpValue::V6(u128::from(n.addr())), prefix_len: n.prefix_len() },
        ),
        Err(_) => None,
    }
}

/// Whether `net` contains `ip`: both of one family, and equal in their first
/// `prefix_len` bits. This is `IpNet::contains`, which tests that the address lies between
/// the network address and the broadcast address.
pub open spec fn net_contains(net: NetValue, ip: IpValue) -> bool {
    let host_bits = addr_width(net.addr) - net.prefix_len;
    prefix_fits(net) && match (net.addr, ip) {
        (IpValue::V4(a), IpValue::V4(b)) => a as nat / pow2(host_bits as nat) == b as nat / pow2(
            host_bits as nat,
        ),
        (IpValue::V6(a), IpValue::V6(b)) => a as nat / pow2(host_bits as nat) == b as nat / pow2(
            host_bits as nat,
        ),
        _ => false,
    }
}

/// Whether `net` contains `ip`.
pub fn subnet_contains(net: NetValue, ip: IpValue) -> (r: bool)
    ensures
        r == net_contains(net, ip),
{
    match (net.addr, ip) {
        (IpValue::V4(a), IpValue::V4(b)) => {
            if net.prefix_len > 32 {
                false
            } else if net.prefix_len == 0 {
                proof {
                    vstd::arithmetic::power2::lemma2_to64();
                    assert(a as nat / pow2(32) == 0);
                    assert(b as nat / pow2(32) == 0);
                }
                true
            } else {
                let k: u32 = 32 - net.prefix_len as u32;
                proof {
                    vstd::bits::lemma_u32_shr_is_div(a, k);
                    vstd::bits::lemma_u32_shr_is_div(b, k);
                }
                (a >> k) == (b >> k)
            }
        },
        (IpValue::V6(a), IpValue::V6(b)) => {
            if net.prefix_len > 128 {
                false
            } else if net.prefix_len == 0 {
                proof {
                    vstd::arithmetic::power2::lemma2_to64_rest();
                    lemma_pow2_128_bound();
                    assert(a as nat / pow2(128) == 0) by {
                        vstd::arithmetic::div_mod::lemma_basic_div(a as int, pow2(128) as int);
                    }
                    assert(b as nat / pow2(128) == 0) by {
                        vstd::arithmetic::div_mod::lemma_basic_div(b as int, pow2(128) as int);
                    }
                }
                true
            } else {
                let k: u128 = 128 - net.prefix_len as u128;
                proof {
                    vstd::bits::lemma_u128_shr_is_div(a, k);
                    vstd::bits::lemma_u128_shr_is_div(b, k);
                }
                (a >> k) == (b >> k)
            }
        },
        _ => false,
    }
}

proof fn lemma_pow2_128_bound()
    ensures
        pow2(128) > u128::MAX,
{
    vstd::arithmetic::power2::lemma_pow2_adds(64, 64);
    vstd::arithmetic::power2::lemma2_to64_rest();
    assert(pow2(64) == 0x10000000000000000);
    assert(0x10000000000000000 * 0x10000000000000000 == 0x100000000000000000000000000000000) by (
    nonlinear_arith);
}

} // verus!
