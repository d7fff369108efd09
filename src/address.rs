//! The endpoint key: an IP address, and the text that stands for it as a URL host.
use vstd::prelude::*;

verus! {

/// An IP address, v4 or v6, held as its bits. Keys compare structurally.
#[derive(Clone, Copy, Debug, PartialEq, Eq, Hash, Structural)]
pub enum IpAddress {
    V4(u32),
    V6(u128),
}

/// The character of a decimal digit.
pub open spec fn digit_char(d: nat) -> char {
    seq!['0', '1', '2', '3', '4', '5', '6', '7', '8', '9'][d as int]
}

/// Decimal text of a natural number, without leading zeros.
pub open spec fn decimal(n: nat) -> Seq<char>
    decreases n,
{
    if n < 10 {
        seq![digit_char(n)]
    } else {
        decimal(n / 10) + seq![digit_char(n % 10)]
    }
}

/// The octet of an IPv4 address that starts at bit `shift`.
pub open spec fn octet(bits: u32, shift: u32) -> u8 {
    ((bits >> shift) & 0xffu32) as u8
}

/// Dotted-decimal text of an IPv4 address, most significant octet first.
pub open spec fn ipv4_text(bits: u32) -> Seq<char> {
    decimal(octet(bits, 24) as nat) + seq!['.'] + decimal(octet(bits, 16) as nat) + seq!['.']
        + decimal(octet(bits, 8) as nat) + seq!['.'] + decimal(octet(bits, 0) as nat)
}

/// The text that url writes for an IPv6 host: the address in brackets, in the
/// compressed form that url chooses.
pub uninterp spec fn ipv6_host_text(bits: u128) -> Seq<char>;

/// Relies on url's `Display` for `Host::Ipv6`, which writes the bracketed,
/// compressed form of the address; the text depends on the address alone.
#[verifier::external_body]
fn ipv6_host(bits: u128) -> (r: String)
    ensures
        r@ == ipv6_host_text(bits),
{
    url::Host::<String>::Ipv6(bits.into()).to_string()
}

/// The text that stands for an address in the host part of a URL.
pub open spec fn host_text(ip: IpAddress) -> Seq<char> {
    match ip {
        IpAddress::V4(bits) => ipv4_text(bits),
        IpAddress::V6(bits) => ipv6_host_text(bits),
    }
}

fn digit_str(d: u8) -> (r: &'static str)
    requires
        d < 10,
    ensures
        r@ == seq![digit_char(d as nat)],
{
    proof {
        reveal_strlit("0");
        reveal_strlit("1");
        reveal_strlit("2");
        reveal_strlit("3");
        reveal_strlit("4");
        reveal_strlit("5");
        reveal_strlit("6");
        reveal_strlit("7");
        reveal_strlit("8");
        reveal_strlit("9");
    }
    match d {
        0 => "0",
        1 => "1",
        2 => "2",
        3 => "3",
        4 => "4",
        5 => "5",
        6 => "6",
        7 => "7",
        8 => "8",
        _ => "9",
    }
}

/// Appends the decimal text of `n` to `s`.
fn push_decimal(s: &mut String, n: u8)
    ensures
        final(s)@ == old(s)@ + decimal(n as nat),
{
    proof {
        reveal_with_fuel(decimal, 3);
    }
    if n >= 100 {
        s.append(digit_str(n / 100));
        s.append(digit_str(n / 10 % 10));
        s.append(digit_str(n % 10));
        assert(decimal(n as nat) =~= seq![
            digit_char((n / 100) as nat),
            digit_char((n / 10 % 10) as nat),
            digit_char((n % 10) as nat),
        ]);
    } else if n >= 10 {
        s.append(digit_str(n / 10));
        s.append(digit_str(n % 10));
        assert(decimal(n as nat) =~= seq![digit_char((n / 10) as nat), digit_char((n % 10) as nat)]);
    } else {
        s.append(digit_str(n));
    }
}

impl IpAddress {
    /// The text of this address as a URL host: dotted decimal for v4, the
    /// bracketed form for v6.
    pub fn host_text(&self) -> (r: String)
        ensures
            r@ == host_text(*self),
    {
        match self {
            IpAddress::V4(bits) => {
                proof {
                    reveal_strlit(".");
                }
                let mut s = String::new();
                push_decimal(&mut s, ((*bits >> 24u32) & 0xffu32) as u8);
                s.append(".");
                push_decimal(&mut s, ((*bits >> 16u32) & 0xffu32) as u8);
                s.append(".");
                push_decimal(&mut s, ((*bits >> 8u32) & 0xffu32) as u8);
                s.append(".");
                push_decimal(&mut s, (*bits & 0xffu32) as u8);
                assert(octet(*bits, 0) == (*bits & 0xffu32) as u8) by (bit_vector);
                assert(s@ =~= ipv4_text(*bits));
                s
            },
            IpAddress::V6(bits) => ipv6_host(*bits),
        }
    }
}

} // verus!
