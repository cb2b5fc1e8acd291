//! IP address text parsing.
//!
//! The handshake carries the server address as text; the session rejects
//! a connection whose address is not an IP literal.  The grammar
//! implemented and specified here:
//!
//! - IPv4: four decimal octets separated by dots, each 0 to 255, with no
//!   leading zeros (a zero octet is exactly `0`).
//! - IPv6: hexadecimal groups of one to four digits separated by colons;
//!   eight groups, or fewer with a single `::` standing for one or more
//!   zero groups; the last two groups may be written as an embedded IPv4
//!   address in dotted form.

use vstd::prelude::*;

verus! {

/// An IP address: four octets, or eight 16-bit groups.
#[derive(PartialEq, Eq, Structural, Clone, Copy, Debug)]
pub enum IpAddress {
    V4(u8, u8, u8, u8),
    V6(u16, u16, u16, u16, u16, u16, u16, u16),
}

/// A server endpoint: an IP address and a port.
#[derive(PartialEq, Eq, Structural, Clone, Copy, Debug)]
pub struct ServerAddress {
    pub ip: IpAddress,
    pub port: u16,
}

pub open spec fn is_digit(c: char) -> bool {
    48 <= c as u32 <= 57
}

pub open spec fn digit_val(c: char) -> int {
    c as u32 - 48
}

pub open spec fn is_hex_digit(c: char) -> bool {
    is_digit(c) || (97 <= c as u32 <= 102) || (65 <= c as u32 <= 70)
}

pub open spec fn hex_val(c: char) -> int {
    if is_digit(c) {
        c as u32 - 48
    } else if 97 <= c as u32 <= 102 {
        c as u32 - 87
    } else {
        c as u32 - 55
    }
}

/// Reads one decimal octet (greedy, at most three digits, no leading
/// zero, at most 255) starting at `i`; yields the value and the index
/// just past it.
pub open spec fn octet_scan(s: Seq<char>, i: int) -> Option<(u8, int)> {
    if 0 <= i < s.len() && is_digit(s[i]) {
        let d0 = digit_val(s[i]);
        if d0 == 0 {
            Some((0u8, i + 1))
        } else if i + 1 < s.len() && is_digit(s[i + 1]) {
            let v2 = 10 * d0 + digit_val(s[i + 1]);
            if i + 2 < s.len() && is_digit(s[i + 2]) {
                let v3 = 10 * v2 + digit_val(s[i + 2]);
                if v3 <= 255 {
                    Some(((v3 as u8), i + 3))
                } else {
                    None
                }
            } else {
                Some(((v2 as u8), i + 2))
            }
        } else {
            Some(((d0 as u8), i + 1))
        }
    } else {
        None
    }
}

/// Reads a full dotted-quad IPv4 address starting at `i` and running to
/// the very end of the text.
pub open spec fn ipv4_scan_at(s: Seq<char>, i: int) -> Option<(u8, u8, u8, u8)> {
    match octet_scan(s, i) {
        None => None,
        Some((a, j)) => {
            if j < s.len() && s[j] == '.' {
                match octet_scan(s, j + 1) {
                    None => None,
                    Some((b, k)) => {
                        if k < s.len() && s[k] == '.' {
                            match octet_scan(s, k + 1) {
                                None => None,
                                Some((c, m)) => {
                                    if m < s.len() && s[m] == '.' {
                                        match octet_scan(s, m + 1) {
                                            None => None,
                                            Some((d, n)) => {
                                                if n == s.len() {
                                                    Some((a, b, c, d))
                                                } else {
                                                    None
                                                }
                                            },
                                        }
                                    } else {
                                        None
                                    }
                                },
                            }
                        } else {
                            None
                        }
                    },
                }
            } else {
                None
            }
        },
    }
}

/// The text as an IPv4 address, if it is one.
pub open spec fn ipv4_of(s: Seq<char>) -> Option<(u8, u8, u8, u8)> {
    ipv4_scan_at(s, 0)
}

/// Reads one hexadecimal group (greedy, one to four digits) starting at
/// `i`; yields the value and the index just past it.
pub open spec fn hex_group_scan(s: Seq<char>, i: int) -> Option<(u16, int)> {
    if 0 <= i < s.len() && is_hex_digit(s[i]) {
        let v1 = hex_val(s[i]);
        if i + 1 < s.len() && is_hex_digit(s[i + 1]) {
            let v2 = 16 * v1 + hex_val(s[i + 1]);
            if i + 2 < s.len() && is_hex_digit(s[i + 2]) {
                let v3 = 16 * v2 + hex_val(s[i + 2]);
                if i + 3 < s.len() && is_hex_digit(s[i + 3]) {
                    let v4 = 16 * v3 + hex_val(s[i + 3]);
                    Some(((v4 as u16), i + 4))
                } else {
                    Some(((v3 as u16), i + 3))
                }
            } else {
                Some(((v2 as u16), i + 2))
            }
        } else {
            Some(((v1 as u16), i + 1))
        }
    } else {
        None
    }
}

/// Whether a dot appears before the next colon (or the end): the mark of
/// an embedded IPv4 tail.
pub open spec fn dot_before_colon(s: Seq<char>, i: int) -> bool
    decreases s.len() - i,
{
    if i < 0 || i >= s.len() {
        false
    } else if s[i] == ':' {
        false
    } else if s[i] == '.' {
        true
    } else {
        dot_before_colon(s, i + 1)
    }
}

/// The two 16-bit groups an embedded IPv4 tail stands for.
pub open spec fn v4_as_groups(q: (u8, u8, u8, u8)) -> Seq<u16> {
    seq![(q.0 * 256 + q.1) as u16, (q.2 * 256 + q.3) as u16]
}

/// Reads the groups after a `::`, where no further `::` may appear.
/// `fields` bounds how many groups may still follow; eight covers every
/// valid address.
pub open spec fn v6_tail_scan(s: Seq<char>, i: int, fields: nat) -> Option<Seq<u16>>
    decreases fields,
{
    if fields == 0 {
        None
    } else if dot_before_colon(s, i) {
        match ipv4_scan_at(s, i) {
            Some(q) => Some(v4_as_groups(q)),
            None => None,
        }
    } else {
        match hex_group_scan(s, i) {
            None => None,
            Some((g, j)) => {
                if j == s.len() {
                    Some(seq![g])
                } else if s[j] == ':' {
                    if j + 1 < s.len() && s[j + 1] == ':' {
                        None
                    } else {
                        match v6_tail_scan(s, j + 1, (fields - 1) as nat) {
                            Some(rest) => Some(seq![g] + rest),
                            None => None,
                        }
                    }
                } else {
                    None
                }
            },
        }
    }
}

/// Reads the groups before any `::`: the result is the leading groups
/// and, if a `::` was met, the groups after it.
pub open spec fn v6_head_scan(s: Seq<char>, i: int, fields: nat) -> Option<
    (Seq<u16>, Option<Seq<u16>>),
>
    decreases fields,
{
    if fields == 0 {
        None
    } else if dot_before_colon(s, i) {
        match ipv4_scan_at(s, i) {
            Some(q) => Some((v4_as_groups(q), None)),
            None => None,
        }
    } else {
        match hex_group_scan(s, i) {
            None => None,
            Some((g, j)) => {
                if j == s.len() {
                    Some((seq![g], None))
                } else if s[j] == ':' {
                    if j + 1 < s.len() && s[j + 1] == ':' {
                        if j + 2 == s.len() {
                            Some((seq![g], Some(Seq::empty())))
                        } else {
                            match v6_tail_scan(s, j + 2, (fields - 1) as nat) {
                                Some(rest) => Some((seq![g], Some(rest))),
                                None => None,
                            }
                        }
                    } else {
                        match v6_head_scan(s, j + 1, (fields - 1) as nat) {
                            Some((front, tail)) => Some((seq![g] + front, tail)),
                            None => None,
                        }
                    }
                } else {
                    None
                }
            },
        }
    }
}

/// `n` zero groups.
pub open spec fn zero_groups(n: nat) -> Seq<u16> {
    Seq::new(n, |i: int| 0u16)
}

/// The text as eight 16-bit groups, if it is an IPv6 address.  A `::`
/// stands for at least one zero group.
pub open spec fn ipv6_groups(s: Seq<char>) -> Option<Seq<u16>> {
    if s.len() >= 2 && s[0] == ':' && s[1] == ':' {
        if s.len() == 2 {
            Some(zero_groups(8))
        } else {
            match v6_tail_scan(s, 2, 8) {
                Some(tail) => {
                    if tail.len() <= 7 {
                        Some(zero_groups((8 - tail.len()) as nat) + tail)
                    } else {
                        None
                    }
                },
                None => None,
            }
        }
    } else {
        match v6_head_scan(s, 0, 8) {
            Some((front, None)) => {
                if front.len() == 8 {
                    Some(front)
                } else {
                    None
                }
            },
            Some((front, Some(tail))) => {
                if front.len() + tail.len() <= 7 {
                    Some(front + zero_groups((8 - front.len() - tail.len()) as nat) + tail)
                } else {
                    None
                }
            },
            None => None,
        }
    }
}

/// The text as an IP address: an IPv4 literal, or an IPv6 literal.
pub open spec fn ip_of(s: Seq<char>) -> Option<IpAddress> {
    match ipv4_of(s) {
        Some((a, b, c, d)) => Some(IpAddress::V4(a, b, c, d)),
        None => match ipv6_groups(s) {
            Some(g) => Some(
                IpAddress::V6(g[0], g[1], g[2], g[3], g[4], g[5], g[6], g[7]),
            ),
            None => None,
        },
    }
}

fn exec_is_digit(c: char) -> (r: bool)
    ensures
        r == is_digit(c),
{
    let u = c as u32;
    48 <= u && u <= 57
}

fn exec_is_hex_digit(c: char) -> (r: bool)
    ensures
        r == is_hex_digit(c),
{
    let u = c as u32;
    (48 <= u && u <= 57) || (97 <= u && u <= 102) || (65 <= u && u <= 70)
}

fn exec_hex_val(c: char) -> (r: u16)
    requires
        is_hex_digit(c),
    ensures
        r == hex_val(c),
{
    let u = c as u32;
    if 48 <= u && u <= 57 {
        (u - 48) as u16
    } else if 97 <= u && u <= 102 {
        (u - 87) as u16
    } else {
        (u - 55) as u16
    }
}

fn exec_octet_scan(v: &Vec<char>, i: usize) -> (r: Option<(u8, usize)>)
    requires
        i <= v@.len(),
    ensures
        match octet_scan(v@, i as int) {
            Some((val, next)) => r matches Some(p) && p.0 == val && p.1 == next,
            None => r is None,
        },
{
    let n = v.len();
    if i < n && exec_is_digit(v[i]) {
        let d0: u16 = (v[i] as u32 - 48) as u16;
        if d0 == 0 {
            Some((0, i + 1))
        } else if i + 1 < n && exec_is_digit(v[i + 1]) {
            let v2: u16 = 10 * d0 + (v[i + 1] as u32 - 48) as u16;
            if i + 2 < n && exec_is_digit(v[i + 2]) {
                let v3: u16 = 10 * v2 + (v[i + 2] as u32 - 48) as u16;
                if v3 <= 255 {
                    Some(((v3 as u8), i + 3))
                } else {
                    None
                }
            } else {
                Some(((v2 as u8), i + 2))
            }
        } else {
            Some(((d0 as u8), i + 1))
        }
    } else {
        None
    }
}

fn exec_ipv4_scan_at(v: &Vec<char>, i: usize) -> (r: Option<(u8, u8, u8, u8)>)
    requires
        i <= v@.len(),
    ensures
        r == ipv4_scan_at(v@, i as int),
{
    let n = v.len();
    match exec_octet_scan(v, i) {
        None => None,
        Some((a, j)) => {
            if j < n && v[j] == '.' {
                match exec_octet_scan(v, j + 1) {
                    None => None,
                    Some((b, k)) => {
                        if k < n && v[k] == '.' {
                            match exec_octet_scan(v, k + 1) {
                                None => None,
                                Some((c, m)) => {
                                    if m < n && v[m] == '.' {
                                        match exec_octet_scan(v, m + 1) {
                                            None => None,
                                            Some((d, e)) => {
                                                if e == n {
                                                    Some((a, b, c, d))
                                                } else {
                                                    None
                                                }
                                            },
                                        }
                                    } else {
                                        None
                                    }
                                },
                            }
                        } else {
                            None
                        }
                    },
                }
            } else {
                None
            }
        },
    }
}

fn exec_hex_group_scan(v: &Vec<char>, i: usize) -> (r: Option<(u16, usize)>)
    requires
        i <= v@.len(),
    ensures
        match hex_group_scan(v@, i as int) {
            Some((val, next)) => r matches Some(p) && p.0 == val && p.1 == next,
            None => r is None,
        },
{
    let n = v.len();
    if i < n && exec_is_hex_digit(v[i]) {
        let v1: u32 = exec_hex_val(v[i]) as u32;
        if i + 1 < n && exec_is_hex_digit(v[i + 1]) {
            let v2: u32 = 16 * v1 + exec_hex_val(v[i + 1]) as u32;
            if i + 2 < n && exec_is_hex_digit(v[i + 2]) {
                let v3: u32 = 16 * v2 + exec_hex_val(v[i + 2]) as u32;
                if i + 3 < n && exec_is_hex_digit(v[i + 3]) {
                    let v4: u32 = 16 * v3 + exec_hex_val(v[i + 3]) as u32;
                    Some(((v4 as u16), i + 4))
                } else {
                    Some(((v3 as u16), i + 3))
                }
            } else {
                Some(((v2 as u16), i + 2))
            }
        } else {
            Some(((v1 as u16), i + 1))
        }
    } else {
        None
    }
}

fn exec_dot_before_colon(v: &Vec<char>, i: usize) -> (r: bool)
    requires
        i <= v@.len(),
    ensures
        r == dot_before_colon(v@, i as int),
    decreases v@.len() - i,
{
    if i >= v.len() {
        false
    } else if v[i] == ':' {
        false
    } else if v[i] == '.' {
        true
    } else {
        exec_dot_before_colon(v, i + 1)
    }
}

fn exec_v6_tail_scan(v: &Vec<char>, i: usize, fields: u8) -> (r: Option<Vec<u16>>)
    requires
        i <= v@.len(),
    ensures
        match v6_tail_scan(v@, i as int, fields as nat) {
            Some(groups) => r matches Some(g) && g@ == groups,
            None => r is None,
        },
    decreases fields,
{
    if fields == 0 {
        None
    } else if exec_dot_before_colon(v, i) {
        match exec_ipv4_scan_at(v, i) {
            Some((a, b, c, d)) => {
                let mut g: Vec<u16> = Vec::new();
                g.push((a as u16) * 256 + (b as u16));
                g.push((c as u16) * 256 + (d as u16));
                proof {
                    assert(g@ =~= v4_as_groups((a, b, c, d)));
                }
                Some(g)
            },
            None => None,
        }
    } else {
        match exec_hex_group_scan(v, i) {
            None => None,
            Some((gv, j)) => {
                if j == v.len() {
                    let mut g: Vec<u16> = Vec::new();
                    g.push(gv);
                    proof {
                        assert(g@ =~= seq![gv]);
                    }
                    Some(g)
                } else if v[j] == ':' {
                    if j + 1 < v.len() && v[j + 1] == ':' {
                        None
                    } else {
                        match exec_v6_tail_scan(v, j + 1, fields - 1) {
                            Some(rest) => {
                                let mut g: Vec<u16> = Vec::new();
                                g.push(gv);
                                let mut k: usize = 0;
                                let n = rest.len();
                                while k < n
                                    invariant
                                        k <= n,
                                        n == rest@.len(),
                                        g@ == seq![gv] + rest@.take(k as int),
                                    decreases n - k,
                                {
                                    g.push(rest[k]);
                                    proof {
                                        assert(seq![gv] + rest@.take(k as int + 1) =~= (seq![gv]
                                            + rest@.take(k as int)).push(rest@[k as int]));
                                    }
                                    k = k + 1;
                                }
                                proof {
                                    assert(rest@.take(n as int) =~= rest@);
                                }
                                Some(g)
                            },
                            None => None,
                        }
                    }
                } else {
                    None
                }
            },
        }
    }
}

fn exec_v6_head_scan(v: &Vec<char>, i: usize, fields: u8) -> (r: Option<
    (Vec<u16>, Option<Vec<u16>>),
>)
    requires
        i <= v@.len(),
    ensures
        match v6_head_scan(v@, i as int, fields as nat) {
            Some((front, tail)) => r matches Some(p) && p.0@ == front && (match tail {
                Some(ts) => p.1 matches Some(tv) && tv@ == ts,
                None => p.1 is None,
            }),
            None => r is None,
        },
    decreases fields,
{
    if fields == 0 {
        None
    } else if exec_dot_before_colon(v, i) {
        match exec_ipv4_scan_at(v, i) {
            Some((a, b, c, d)) => {
                let mut g: Vec<u16> = Vec::new();
                g.push((a as u16) * 256 + (b as u16));
                g.push((c as u16) * 256 + (d as u16));
                proof {
                    assert(g@ =~= v4_as_groups((a, b, c, d)));
                }
                Some((g, None))
            },
            None => None,
        }
    } else {
        match exec_hex_group_scan(v, i) {
            None => None,
            Some((gv, j)) => {
                if j == v.len() {
                    let mut g: Vec<u16> = Vec::new();
                    g.push(gv);
                    proof {
                        assert(g@ =~= seq![gv]);
                    }
                    Some((g, None))
                } else if v[j] == ':' {
                    if j + 1 < v.len() && v[j + 1] == ':' {
                        if j + 2 == v.len() {
                            let mut g: Vec<u16> = Vec::new();
                            g.push(gv);
                            let empty: Vec<u16> = Vec::new();
                            proof {
                                assert(g@ =~= seq![gv]);
                                assert(empty@ =~= Seq::<u16>::empty());
                            }
                            Some((g, Some(empty)))
                        } else {
                            match exec_v6_tail_scan(v, j + 2, fields - 1) {
                                Some(rest) => {
                                    let mut g: Vec<u16> = Vec::new();
                                    g.push(gv);
                                    proof {
                                        assert(g@ =~= seq![gv]);
                                    }
                                    Some((g, Some(rest)))
                                },
                                None => None,
                            }
                        }
                    } else {
                        match exec_v6_head_scan(v, j + 1, fields - 1) {
                            Some((front, tail)) => {
                                let mut g: Vec<u16> = Vec::new();
                                g.push(gv);
                                let mut k: usize = 0;
                                let n = front.len();
                                while k < n
                                    invariant
                                        k <= n,
                                        n == front@.len(),
                                        g@ == seq![gv] + front@.take(k as int),
                                    decreases n - k,
                                {
                                    g.push(front[k]);
                                    proof {
                                        assert(seq![gv] + front@.take(k as int + 1) =~= (seq![gv]
                                            + front@.take(k as int)).push(front@[k as int]));
                                    }
                                    k = k + 1;
                                }
                                proof {
                                    assert(front@.take(n as int) =~= front@);
                                }
                                Some((g, tail))
                            },
                            None => None,
                        }
                    }
                } else {
                    None
                }
            },
        }
    }
}

/// The characters of a string, one by one.
fn str_chars(s: &str) -> (r: Vec<char>)
    ensures
        r@ == s@,
{
    let n = s.unicode_len();
    let mut out: Vec<char> = Vec::new();
    let mut i: usize = 0;
    while i < n
        invariant
            i <= n,
            n == s@.len(),
            out@ == s@.take(i as int),
        decreases n - i,
    {
        out.push(s.get_char(i));
        proof {
            assert(s@.take(i as int + 1) =~= s@.take(i as int).push(s@[i as int]));
        }
        i = i + 1;
    }
    proof {
        assert(s@.take(n as int) =~= s@);
    }
    out
}

/// Builds the eight groups of an IPv6 address from the parsed front and
/// back parts, with zeros in between.
fn assemble_v6(front: &Vec<u16>, back: &Vec<u16>) -> (r: IpAddress)
    requires
        front@.len() + back@.len() <= 8,
    ensures
        ({
            let full = front@ + zero_groups((8 - front@.len() - back@.len()) as nat) + back@;
            r == IpAddress::V6(
                full[0],
                full[1],
                full[2],
                full[3],
                full[4],
                full[5],
                full[6],
                full[7],
            )
        }),
{
    let ghost full = front@ + zero_groups((8 - front@.len() - back@.len()) as nat) + back@;
    let mut g: [u16; 8] = [0, 0, 0, 0, 0, 0, 0, 0];
    let mut out: Vec<u16> = Vec::new();
    let mut i: usize = 0;
    while i < front.len()
        invariant
            i <= front@.len() <= 8,
            out@ == front@.take(i as int),
        decreases front@.len() - i,
    {
        out.push(front[i]);
        proof {
            assert(front@.take(i as int + 1) =~= front@.take(i as int).push(front@[i as int]));
        }
        i = i + 1;
    }
    proof {
        assert(front@.take(front@.len() as int) =~= front@);
    }
    let zeros = 8 - front.len() - back.len();
    let mut z: usize = 0;
    while z < zeros
        invariant
            z <= zeros,
            zeros == 8 - front@.len() - back@.len(),
            front@.len() + back@.len() <= 8,
            out@ == front@ + zero_groups(z as nat),
        decreases zeros - z,
    {
        out.push(0);
        proof {
            assert(front@ + zero_groups(z as nat + 1) =~= (front@ + zero_groups(z as nat)).push(
                0u16,
            ));
        }
        z = z + 1;
    }
    let mut b: usize = 0;
    while b < back.len()
        invariant
            b <= back@.len(),
            front@.len() + back@.len() <= 8,
            out@ == front@ + zero_groups((8 - front@.len() - back@.len()) as nat) + back@.take(
                b as int,
            ),
        decreases back@.len() - b,
    {
        out.push(back[b]);
        proof {
            assert(front@ + zero_groups((8 - front@.len() - back@.len()) as nat) + back@.take(
                b as int + 1,
            ) =~= (front@ + zero_groups((8 - front@.len() - back@.len()) as nat) + back@.take(
                b as int,
            )).push(back@[b as int]));
        }
        b = b + 1;
    }
    proof {
        assert(back@.take(back@.len() as int) =~= back@);
        assert(out@ =~= full);
        assert(out@.len() == 8);
    }
    IpAddress::V6(out[0], out[1], out[2], out[3], out[4], out[5], out[6], out[7])
}

/// Parses the text as an IP address, trying the dotted IPv4 form first
/// and the IPv6 forms second.
pub fn parse_ip(s: &str) -> (r: Option<IpAddress>)
    ensures
        r == ip_of(s@),
{
    let v = str_chars(s);
    match exec_ipv4_scan_at(&v, 0) {
        Some((a, b, c, d)) => Some(IpAddress::V4(a, b, c, d)),
        None => {
            let n = v.len();
            if n >= 2 && v[0] == ':' && v[1] == ':' {
                if n == 2 {
                    let empty: Vec<u16> = Vec::new();
                    proof {
                        assert(zero_groups(8) =~= Seq::<u16>::empty() + zero_groups(8)
                            + Seq::<u16>::empty());
                    }
                    Some(assemble_v6(&empty, &empty))
                } else {
                    match exec_v6_tail_scan(&v, 2, 8) {
                        Some(tail) => {
                            if tail.len() <= 7 {
                                let empty: Vec<u16> = Vec::new();
                                proof {
                                    assert(zero_groups((8 - tail@.len()) as nat) + tail@
                                        =~= Seq::<u16>::empty() + zero_groups(
                                        (8 - tail@.len()) as nat,
                                    ) + tail@);
                                }
                                Some(assemble_v6(&empty, &tail))
                            } else {
                                None
                            }
                        },
                        None => None,
                    }
                }
            } else {
                match exec_v6_head_scan(&v, 0, 8) {
                    Some((front, None)) => {
                        if front.len() == 8 {
                            let empty: Vec<u16> = Vec::new();
                            proof {
                                assert(front@ =~= front@ + zero_groups(0) + Seq::<u16>::empty());
                            }
                            Some(assemble_v6(&front, &empty))
                        } else {
                            None
                        }
                    },
                    Some((front, Some(tail))) => {
                        if front.len() <= 7 && tail.len() <= 7 - front.len() {
                            Some(assemble_v6(&front, &tail))
                        } else {
                            None
                        }
                    },
                    None => None,
                }
            }
        },
    }
}

} // verus!
