//! Textual forms of addresses: lowercase hexadecimal MAC addresses, dotted
//! IPv4 text, and canonical IPv6 text with its zero-run compression.
//!
//! Each exec function is pinned to a spec function that builds the same text
//! as a sequence of characters.

use vstd::prelude::*;

use crate::address::{IpAddress, Ipv4Address, Ipv6Address};

verus! {

/// The lowercase digit character of a value below sixteen.
pub open spec fn hex_digit(d: int) -> char {
    if d == 0 {
        '0'
    } else if d == 1 {
        '1'
    } else if d == 2 {
        '2'
    } else if d == 3 {
        '3'
    } else if d == 4 {
        '4'
    } else if d == 5 {
        '5'
    } else if d == 6 {
        '6'
    } else if d == 7 {
        '7'
    } else if d == 8 {
        '8'
    } else if d == 9 {
        '9'
    } else if d == 10 {
        'a'
    } else if d == 11 {
        'b'
    } else if d == 12 {
        'c'
    } else if d == 13 {
        'd'
    } else if d == 14 {
        'e'
    } else {
        'f'
    }
}

/// The hexadecimal text of a non-negative value, without leading zeros.
pub open spec fn hex_text(g: int) -> Seq<char>
    recommends
        g >= 0,
    decreases g,
{
    if g < 16 {
        seq![hex_digit(g)]
    } else {
        hex_text(g / 16).push(hex_digit(g % 16))
    }
}

/// The decimal text of a non-negative value, without leading zeros.
pub open spec fn dec_text(n: int) -> Seq<char>
    recommends
        n >= 0,
    decreases n,
{
    if n < 10 {
        seq![hex_digit(n)]
    } else {
        dec_text(n / 10).push(hex_digit(n % 10))
    }
}

/// The two hexadecimal digits of a byte, zero padded.
pub open spec fn two_hex(b: int) -> Seq<char>
    recommends
        0 <= b < 256,
{
    seq![hex_digit(b / 16), hex_digit(b % 16)]
}

/// The text of a MAC address: each byte as two hexadecimal digits, the bytes
/// separated by colons.
pub open spec fn mac_text(s: Seq<u8>) -> Seq<char>
    decreases s.len(),
{
    if s.len() == 0 {
        Seq::empty()
    } else if s.len() == 1 {
        two_hex(s[0] as int)
    } else {
        mac_text(s.drop_last()) + seq![':'] + two_hex(s.last() as int)
    }
}

/// Appends one digit character.
fn push_digit(out: &mut String, d: u16)
    requires
        d < 16,
    ensures
        final(out)@ == old(out)@ + seq![hex_digit(d as int)],
{
    proof {
        reveal_strlit("0");
        reveal_strlit("1");
        reveal_strlit("2");
        reveal_strlit("3");
        reveal_strlit("4");
        reveal_strlit("5");
        reveal_strlit("6");
        reveal_strlit("7");
        reveal_strlit("8");
        reveal_strlit("9");
        reveal_strlit("a");
        reveal_strlit("b");
        reveal_strlit("c");
        reveal_strlit("d");
        reveal_strlit("e");
        reveal_strlit("f");
    }
    match d {
        0 => out.append("0"),
        1 => out.append("1"),
        2 => out.append("2"),
        3 => out.append("3"),
        4 => out.append("4"),
        5 => out.append("5"),
        6 => out.append("6"),
        7 => out.append("7"),
        8 => out.append("8"),
        9 => out.append("9"),
        10 => out.append("a"),
        11 => out.append("b"),
        12 => out.append("c"),
        13 => out.append("d"),
        14 => out.append("e"),
        _ => out.append("f"),
    }
    proof {
        assert(final(out)@ =~= old(out)@ + seq![hex_digit(d as int)]);
    }
}

/// Appends a colon.
fn push_colon(out: &mut String)
    ensures
        final(out)@ == old(out)@ + seq![':'],
{
    proof {
        reveal_strlit(":");
    }
    out.append(":");
    proof {
        assert(final(out)@ =~= old(out)@ + seq![':']);
    }
}

/// Appends a byte's two hexadecimal digits, zero padded.
fn push_two_hex(out: &mut String, b: u8)
    ensures
        final(out)@ == old(out)@ + two_hex(b as int),
{
    let ghost start = out@;
    push_digit(out, (b / 16) as u16);
    push_digit(out, (b % 16) as u16);
    proof {
        assert(out@ =~= start + two_hex(b as int));
    }
}

/// Converts a MAC address to its hexadecimal form, colon separated.
pub fn mac_from_dec_to_hex(mac_dec: [u8; 6]) -> (r: String)
    ensures
        r@ == mac_text(mac_dec@),
{
    let mut mac_hex = String::new();
    for i in 0..6usize
        invariant
            mac_hex@ == mac_text(mac_dec@.subrange(0, i as int)),
    {
        if i > 0 {
            push_colon(&mut mac_hex);
        }
        push_two_hex(&mut mac_hex, mac_dec[i]);
        proof {
            let pfx = mac_dec@.subrange(0, i as int);
            let nxt = mac_dec@.subrange(0, i + 1);
            assert(nxt.drop_last() =~= pfx);
            assert(nxt.last() == mac_dec@[i as int]);
            assert(mac_hex@ =~= mac_text(nxt));
        }
    }
    proof {
        assert(mac_dec@.subrange(0, 6) =~= mac_dec@);
    }
    mac_hex
}


/// Appends a group's hexadecimal text, without leading zeros.
fn push_hex_group(out: &mut String, g: u16)
    ensures
        final(out)@ == old(out)@ + hex_text(g as int),
{
    let ghost start = out@;
    let ghost gi = g as int;
    if g >= 0x1000 {
        push_digit(out, g / 0x1000);
        push_digit(out, (g / 0x100) % 16);
        push_digit(out, (g / 16) % 16);
        push_digit(out, g % 16);
        proof {
            assert(gi / 16 / 16 == gi / 256) by (nonlinear_arith);
            assert(gi / 256 / 16 == gi / 4096) by (nonlinear_arith);
            assert(hex_text(gi / 4096) =~= seq![hex_digit(gi / 4096)]);
            assert(hex_text(gi / 256) =~= hex_text(gi / 4096).push(hex_digit((gi / 256) % 16)));
            assert(hex_text(gi / 16) =~= hex_text(gi / 256).push(hex_digit((gi / 16) % 16)));
            assert(hex_text(gi) =~= hex_text(gi / 16).push(hex_digit(gi % 16)));
            assert(out@ =~= start + hex_text(gi));
        }
    } else if g >= 0x100 {
        push_digit(out, g / 0x100);
        push_digit(out, (g / 16) % 16);
        push_digit(out, g % 16);
        proof {
            assert(gi / 16 / 16 == gi / 256) by (nonlinear_arith);
            assert(hex_text(gi / 256) =~= seq![hex_digit(gi / 256)]);
            assert(hex_text(gi / 16) =~= hex_text(gi / 256).push(hex_digit((gi / 16) % 16)));
            assert(hex_text(gi) =~= hex_text(gi / 16).push(hex_digit(gi % 16)));
            assert(out@ =~= start + hex_text(gi));
        }
    } else if g >= 16 {
        push_digit(out, g / 16);
        push_digit(out, g % 16);
        proof {
            assert(hex_text(gi / 16) =~= seq![hex_digit(gi / 16)]);
            assert(hex_text(gi) =~= hex_text(gi / 16).push(hex_digit(gi % 16)));
            assert(out@ =~= start + hex_text(gi));
        }
    } else {
        push_digit(out, g);
        proof {
            assert(out@ =~= start + hex_text(gi));
        }
    }
}

/// Appends a byte's decimal text, without leading zeros.
fn push_dec_u8(out: &mut String, n: u8)
    ensures
        final(out)@ == old(out)@ + dec_text(n as int),
{
    let ghost start = out@;
    let ghost ni = n as int;
    if n >= 100 {
        push_digit(out, (n / 100) as u16);
        push_digit(out, ((n / 10) % 10) as u16);
        push_digit(out, (n % 10) as u16);
        proof {
            assert(ni / 10 / 10 == ni / 100) by (nonlinear_arith);
            assert(dec_text(ni / 100) =~= seq![hex_digit(ni / 100)]);
            assert(dec_text(ni / 10) =~= dec_text(ni / 100).push(hex_digit((ni / 10) % 10)));
            assert(dec_text(ni) =~= dec_text(ni / 10).push(hex_digit(ni % 10)));
            assert(out@ =~= start + dec_text(ni));
        }
    } else if n >= 10 {
        push_digit(out, (n / 10) as u16);
        push_digit(out, (n % 10) as u16);
        proof {
            assert(dec_text(ni / 10) =~= seq![hex_digit(ni / 10)]);
            assert(dec_text(ni) =~= dec_text(ni / 10).push(hex_digit(ni % 10)));
            assert(out@ =~= start + dec_text(ni));
        }
    } else {
        push_digit(out, n as u16);
        proof {
            assert(out@ =~= start + dec_text(ni));
        }
    }
}

/// Appends a dot.
fn push_dot(out: &mut String)
    ensures
        final(out)@ == old(out)@ + seq!['.'],
{
    proof {
        reveal_strlit(".");
    }
    out.append(".");
    proof {
        assert(final(out)@ =~= old(out)@ + seq!['.']);
    }
}

/// The dotted decimal text of an IPv4 address.
pub open spec fn ipv4_text(v: Ipv4Address) -> Seq<char> {
    dec_text(v.o0 as int) + seq!['.'] + dec_text(v.o1 as int) + seq!['.'] + dec_text(v.o2 as int)
        + seq!['.'] + dec_text(v.o3 as int)
}

/// Appends an IPv4 address's dotted decimal text.
fn push_ipv4(out: &mut String, v: &Ipv4Address)
    ensures
        final(out)@ == old(out)@ + ipv4_text(*v),
{
    let ghost start = out@;
    push_dec_u8(out, v.o0);
    push_dot(out);
    push_dec_u8(out, v.o1);
    push_dot(out);
    push_dec_u8(out, v.o2);
    push_dot(out);
    push_dec_u8(out, v.o3);
    proof {
        assert(out@ =~= start + ipv4_text(*v));
    }
}

/// The colon-joined hexadecimal text of a run of groups.
pub open spec fn groups_text(s: Seq<u16>) -> Seq<char>
    decreases s.len(),
{
    if s.len() == 0 {
        Seq::empty()
    } else if s.len() == 1 {
        hex_text(s[0] as int)
    } else {
        groups_text(s.drop_last()) + seq![':'] + hex_text(s.last() as int)
    }
}

/// Appends the colon-joined text of the groups in `from..to`.
fn push_groups(out: &mut String, gs: &Vec<u16>, from: usize, to: usize)
    requires
        from <= to && to <= gs@.len(),
    ensures
        final(out)@ == old(out)@ + groups_text(gs@.subrange(from as int, to as int)),
{
    let ghost start = out@;
    let mut i = from;
    while i < to
        invariant
            from <= i <= to && to <= gs@.len(),
            out@ == start + groups_text(gs@.subrange(from as int, i as int)),
        decreases to - i,
    {
        if i > from {
            push_colon(out);
        }
        push_hex_group(out, gs[i]);
        proof {
            let pfx = gs@.subrange(from as int, i as int);
            let nxt = gs@.subrange(from as int, i + 1);
            assert(nxt.drop_last() =~= pfx);
            assert(nxt.last() == gs@[i as int]);
            assert(out@ =~= start + groups_text(nxt));
        }
        i = i + 1;
    }
}

/// The number of zero groups from position `i` on, before the first non-zero
/// group.
pub open spec fn zero_run_len(s: Seq<u16>, i: int) -> int
    recommends
        0 <= i,
    decreases s.len() - i,
{
    if i < 0 || i >= s.len() || s[i] != 0 {
        0
    } else {
        1 + zero_run_len(s, i + 1)
    }
}

/// The first index at which the longest run of at least two zero groups
/// starts, looking from position `i` on; ties go to the leftmost run; `-1`
/// where no such run exists.
pub open spec fn best_zero_run_from(s: Seq<u16>, i: int) -> int
    decreases s.len() - i,
{
    if i >= s.len() {
        -1
    } else {
        let rest = best_zero_run_from(s, i + 1);
        let cur = zero_run_len(s, i);
        if cur >= 2 && (rest == -1 || cur >= zero_run_len(s, rest)) {
            i
        } else {
            rest
        }
    }
}

/// A zero run's length, counted by its first non-zero delimiter.
proof fn lemma_zero_run(s: Seq<u16>, i: int, j: int)
    requires
        0 <= i <= j <= s.len(),
        forall|t: int| i <= t < j ==> s[t] == 0,
        j == s.len() || s[j] != 0,
    ensures
        zero_run_len(s, i) == j - i,
    decreases j - i,
{
    if i < j {
        lemma_zero_run(s, i + 1, j);
    }
}

/// Counts the zero groups from position `i` on.
fn run_len_at(gs: &Vec<u16>, i: usize) -> (r: usize)
    requires
        i <= gs@.len(),
    ensures
        r == zero_run_len(gs@, i as int),
        i + r <= gs@.len(),
{
    let mut j = i;
    while j < gs.len() && gs[j] == 0
        invariant
            i <= j <= gs@.len(),
            forall|t: int| i <= t < j ==> gs@[t] == 0,
        decreases gs@.len() - j,
    {
        j = j + 1;
    }
    proof {
        lemma_zero_run(gs@, i as int, j as int);
    }
    j - i
}

/// Finds where the compressed zero run of the canonical text starts.
fn find_best_zero_run(gs: &Vec<u16>) -> (r: Option<usize>)
    ensures
        match r {
            Option::Some(b) => b < gs@.len() && best_zero_run_from(gs@, 0) == b,
            Option::None => best_zero_run_from(gs@, 0) == -1,
        },
{
    let mut i = gs.len();
    let mut best: Option<usize> = None;
    while i > 0
        invariant
            i <= gs@.len(),
            match best {
                Option::Some(b) => b < gs@.len() && best_zero_run_from(gs@, i as int) == b,
                Option::None => best_zero_run_from(gs@, i as int) == -1,
            },
        decreases i,
    {
        i = i - 1;
        let cur = run_len_at(gs, i);
        let take = cur >= 2 && (match best {
            Some(b) => cur >= run_len_at(gs, b),
            None => true,
        });
        if take {
            best = Some(i);
        }
    }
    best
}

/// Whether the address is an IPv4-mapped IPv6 address, whose canonical text
/// embeds the dotted IPv4 form.
pub open spec fn spec_is_v4_mapped(v: Ipv6Address) -> bool {
    v.g0 == 0 && v.g1 == 0 && v.g2 == 0 && v.g3 == 0 && v.g4 == 0 && v.g5 == 0xffff
}

/// The IPv4 address embedded in the last two groups of an IPv6 address.
pub open spec fn spec_embedded_v4(v: Ipv6Address) -> Ipv4Address {
    Ipv4Address {
        o0: (v.g6 / 256) as u8,
        o1: (v.g6 % 256) as u8,
        o2: (v.g7 / 256) as u8,
        o3: (v.g7 % 256) as u8,
    }
}

/// The canonical text of an IPv6 address: lowercase hexadecimal groups
/// joined by colons, with the leftmost longest run of at least two zero
/// groups compressed to `::`, and IPv4-mapped addresses written with their
/// embedded dotted IPv4 form.
pub open spec fn ipv6_text(v: Ipv6Address) -> Seq<char> {
    let g = v.groups();
    if spec_is_v4_mapped(v) {
        seq![':', ':', 'f', 'f', 'f', 'f', ':'] + ipv4_text(spec_embedded_v4(v))
    } else {
        let b = best_zero_run_from(g, 0);
        if b == -1 {
            groups_text(g)
        } else {
            groups_text(g.subrange(0, b)) + seq![':', ':'] + groups_text(
                g.subrange(b + zero_run_len(g, b), 8),
            )
        }
    }
}

/// The text of an address: dotted decimal for IPv4, canonical form for IPv6.
pub open spec fn spec_ip_text(a: IpAddress) -> Seq<char> {
    match a {
        IpAddress::V4(v) => ipv4_text(v),
        IpAddress::V6(v) => ipv6_text(v),
    }
}

/// The eight groups of an IPv6 address as a vector.
fn groups_vec(v: &Ipv6Address) -> (r: Vec<u16>)
    ensures
        r@ == v.groups(),
{
    let mut r: Vec<u16> = Vec::new();
    r.push(v.g0);
    r.push(v.g1);
    r.push(v.g2);
    r.push(v.g3);
    r.push(v.g4);
    r.push(v.g5);
    r.push(v.g6);
    r.push(v.g7);
    proof {
        assert(r@ =~= v.groups());
    }
    r
}

impl IpAddress {
    /// The address's text: dotted decimal for IPv4, the canonical compressed
    /// form for IPv6.
    pub fn to_text(&self) -> (r: String)
        ensures
            r@ == spec_ip_text(*self),
    {
        let mut out = String::new();
        match self {
            IpAddress::V4(v) => {
                push_ipv4(&mut out, v);
                proof {
                    assert(out@ =~= spec_ip_text(*self));
                }
            },
            IpAddress::V6(v) => {
                if v.g0 == 0 && v.g1 == 0 && v.g2 == 0 && v.g3 == 0 && v.g4 == 0 && v.g5 == 0xffff {
                    proof {
                        reveal_strlit("::ffff:");
                    }
                    out.append("::ffff:");
                    let embedded = Ipv4Address {
                        o0: (v.g6 / 256) as u8,
                        o1: (v.g6 % 256) as u8,
                        o2: (v.g7 / 256) as u8,
                        o3: (v.g7 % 256) as u8,
                    };
                    push_ipv4(&mut out, &embedded);
                    proof {
                        assert("::ffff:"@ =~= seq![':', ':', 'f', 'f', 'f', 'f', ':']);
                        assert(out@ =~= spec_ip_text(*self));
                    }
                } else {
                    let gs = groups_vec(v);
                    match find_best_zero_run(&gs) {
                        None => {
                            push_groups(&mut out, &gs, 0, 8);
                            proof {
                                assert(gs@.subrange(0, 8) =~= v.groups());
                                assert(out@ =~= spec_ip_text(*self));
                            }
                        },
                        Some(b) => {
                            let l = run_len_at(&gs, b);
                            push_groups(&mut out, &gs, 0, b);
                            push_colon(&mut out);
                            push_colon(&mut out);
                            push_groups(&mut out, &gs, b + l, 8);
                            proof {
                                assert(out@ =~= spec_ip_text(*self));
                            }
                        },
                    }
                }
            },
        }
        out
    }
}

} // verus!
