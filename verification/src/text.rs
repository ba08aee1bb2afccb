//! Verified text rendering: decimal numbers, hexadecimal bytes, and the
//! canonical printable forms of link-layer and network addresses.
//!
//! Addresses render canonically: MAC addresses as six colon-separated
//! lowercase hex byte pairs, IPv4 addresses in dotted decimal, IPv6 addresses
//! as eight colon-separated groups of four lowercase hex digits.

use vstd::prelude::*;

verus! {

/// The decimal digit character for `d`.
pub open spec fn spec_dec_digit(d: int) -> Seq<char> {
    if d == 0 {
        "0"@
    } else if d == 1 {
        "1"@
    } else if d == 2 {
        "2"@
    } else if d == 3 {
        "3"@
    } else if d == 4 {
        "4"@
    } else if d == 5 {
        "5"@
    } else if d == 6 {
        "6"@
    } else if d == 7 {
        "7"@
    } else if d == 8 {
        "8"@
    } else {
        "9"@
    }
}

/// The decimal rendering of `n`, without leading zeros.
pub open spec fn spec_dec_nat(n: nat) -> Seq<char>
    decreases n,
{
    if n < 10 {
        spec_dec_digit(n as int)
    } else {
        spec_dec_nat(n / 10) + spec_dec_digit((n % 10) as int)
    }
}

/// The lowercase hexadecimal digit character for `d`.
pub open spec fn spec_hex_digit(d: int) -> Seq<char> {
    if d < 10 {
        spec_dec_digit(d)
    } else if d == 10 {
        "a"@
    } else if d == 11 {
        "b"@
    } else if d == 12 {
        "c"@
    } else if d == 13 {
        "d"@
    } else if d == 14 {
        "e"@
    } else {
        "f"@
    }
}

/// The two-digit lowercase hexadecimal rendering of a byte.
pub open spec fn spec_hex_byte(b: u8) -> Seq<char> {
    spec_hex_digit(b as int / 16) + spec_hex_digit(b as int % 16)
}

/// The canonical printable form of a six-byte MAC address.
pub open spec fn spec_mac_str(m: Seq<u8>) -> Seq<char>
    recommends
        m.len() == 6,
{
    spec_hex_byte(m[0]) + ":"@ + spec_hex_byte(m[1]) + ":"@ + spec_hex_byte(m[2]) + ":"@
        + spec_hex_byte(m[3]) + ":"@ + spec_hex_byte(m[4]) + ":"@ + spec_hex_byte(m[5])
}

/// The dotted-decimal printable form of a four-byte IPv4 address.
pub open spec fn spec_ipv4_str(a: Seq<u8>) -> Seq<char>
    recommends
        a.len() == 4,
{
    spec_dec_nat(a[0] as nat) + "."@ + spec_dec_nat(a[1] as nat) + "."@ + spec_dec_nat(
        a[2] as nat,
    ) + "."@ + spec_dec_nat(a[3] as nat)
}

/// One four-digit group of an IPv6 address: the two bytes at `2 * g`.
pub open spec fn spec_ipv6_group(a: Seq<u8>, g: int) -> Seq<char> {
    spec_hex_byte(a[2 * g]) + spec_hex_byte(a[2 * g + 1])
}

/// The canonical printable form of a sixteen-byte IPv6 address.
pub open spec fn spec_ipv6_str(a: Seq<u8>) -> Seq<char>
    recommends
        a.len() == 16,
{
    spec_ipv6_group(a, 0) + ":"@ + spec_ipv6_group(a, 1) + ":"@ + spec_ipv6_group(a, 2) + ":"@
        + spec_ipv6_group(a, 3) + ":"@ + spec_ipv6_group(a, 4) + ":"@ + spec_ipv6_group(a, 5)
        + ":"@ + spec_ipv6_group(a, 6) + ":"@ + spec_ipv6_group(a, 7)
}

/// The one-character string for a decimal digit.
fn dec_digit_str(d: u8) -> (r: &'static str)
    requires
        d < 10,
    ensures
        r@ == spec_dec_digit(d as int),
{
    if d == 0 {
        "0"
    } else if d == 1 {
        "1"
    } else if d == 2 {
        "2"
    } else if d == 3 {
        "3"
    } else if d == 4 {
        "4"
    } else if d == 5 {
        "5"
    } else if d == 6 {
        "6"
    } else if d == 7 {
        "7"
    } else if d == 8 {
        "8"
    } else {
        "9"
    }
}

/// The one-character string for a lowercase hexadecimal digit.
fn hex_digit_str(d: u8) -> (r: &'static str)
    requires
        d < 16,
    ensures
        r@ == spec_hex_digit(d as int),
{
    if d < 10 {
        dec_digit_str(d)
    } else if d == 10 {
        "a"
    } else if d == 11 {
        "b"
    } else if d == 12 {
        "c"
    } else if d == 13 {
        "d"
    } else if d == 14 {
        "e"
    } else {
        "f"
    }
}

/// Append the decimal rendering of `n` to `s`.
pub fn append_dec_u64(s: &mut String, n: u64)
    ensures
        final(s)@ == old(s)@ + spec_dec_nat(n as nat),
    decreases n,
{
    if n < 10 {
        s.append(dec_digit_str(n as u8));
    } else {
        append_dec_u64(s, n / 10);
        s.append(dec_digit_str((n % 10) as u8));
    }
}

/// The decimal rendering of `n` as a fresh string.
pub fn dec_u64_string(n: u64) -> (r: String)
    ensures
        r@ == spec_dec_nat(n as nat),
{
    let mut s = String::new();
    append_dec_u64(&mut s, n);
    proof {
        assert(s@ =~= spec_dec_nat(n as nat));
    }
    s
}

/// Append the two-digit hexadecimal rendering of `b` to `s`.
pub fn append_hex_byte(s: &mut String, b: u8)
    ensures
        final(s)@ == old(s)@ + spec_hex_byte(b),
{
    s.append(hex_digit_str(b / 16));
    s.append(hex_digit_str(b % 16));
}

/// The canonical printable form of a six-byte MAC address.
pub fn mac_string(m: &Vec<u8>) -> (r: String)
    requires
        m@.len() == 6,
    ensures
        r@ == spec_mac_str(m@),
{
    let mut s = String::new();
    append_hex_byte(&mut s, m[0]);
    s.append(":");
    append_hex_byte(&mut s, m[1]);
    s.append(":");
    append_hex_byte(&mut s, m[2]);
    s.append(":");
    append_hex_byte(&mut s, m[3]);
    s.append(":");
    append_hex_byte(&mut s, m[4]);
    s.append(":");
    append_hex_byte(&mut s, m[5]);
    proof {
        assert(s@ =~= spec_mac_str(m@));
    }
    s
}

/// The dotted-decimal printable form of a four-byte IPv4 address.
pub fn ipv4_string(a: &Vec<u8>) -> (r: String)
    requires
        a@.len() == 4,
    ensures
        r@ == spec_ipv4_str(a@),
{
    let mut s = String::new();
    append_dec_u64(&mut s, a[0] as u64);
    s.append(".");
    append_dec_u64(&mut s, a[1] as u64);
    s.append(".");
    append_dec_u64(&mut s, a[2] as u64);
    s.append(".");
    append_dec_u64(&mut s, a[3] as u64);
    proof {
        assert(s@ =~= spec_ipv4_str(a@));
    }
    s
}

/// Append the four-digit group `g` of the IPv6 address `a` to `s`.
fn append_ipv6_group(s: &mut String, a: &Vec<u8>, g: usize)
    requires
        a@.len() == 16,
        g < 8,
    ensures
        final(s)@ == old(s)@ + spec_ipv6_group(a@, g as int),
{
    append_hex_byte(s, a[2 * g]);
    append_hex_byte(s, a[2 * g + 1]);
}

/// The canonical printable form of a sixteen-byte IPv6 address.
#[verifier::rlimit(30)]
pub fn ipv6_string(a: &Vec<u8>) -> (r: String)
    requires
        a@.len() == 16,
    ensures
        r@ == spec_ipv6_str(a@),
{
    let mut s = String::new();
    append_ipv6_group(&mut s, a, 0);
    s.append(":");
    append_ipv6_group(&mut s, a, 1);
    s.append(":");
    append_ipv6_group(&mut s, a, 2);
    s.append(":");
    append_ipv6_group(&mut s, a, 3);
    s.append(":");
    append_ipv6_group(&mut s, a, 4);
    s.append(":");
    append_ipv6_group(&mut s, a, 5);
    s.append(":");
    append_ipv6_group(&mut s, a, 6);
    s.append(":");
    append_ipv6_group(&mut s, a, 7);
    proof {
        assert(s@ =~= spec_ipv6_str(a@));
    }
    s
}

} // verus!
