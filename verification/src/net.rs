//! Address validation and the textual side of the route helper: deciding
//! whether an advertised address is private, and reading the output of
//! the platform's routing commands. The commands themselves run in the
//! shell around this crate and hand their output in as strings.

use vstd::prelude::*;

use crate::text::{
    contains_nonblank, has_nonblank, has_prefix, line_heads, line_heads_of, nth_token,
    str_has_prefix, tokens_of, trim_blank, trimmed,
};

verus! {

pub open spec fn is_hex_digit(c: char) -> bool {
    (48 <= c as u32 && c as u32 <= 57) || (97 <= c as u32 && c as u32 <= 102) || (65 <= c as u32
        && c as u32 <= 70)
}

/// The value of a hex digit; zero for any other character.
pub open spec fn hex_digit_val(c: char) -> nat {
    if 48 <= c as u32 && c as u32 <= 57 {
        (c as u32 - 48) as nat
    } else if 97 <= c as u32 && c as u32 <= 102 {
        (c as u32 - 87) as nat
    } else if 65 <= c as u32 && c as u32 <= 70 {
        (c as u32 - 55) as nat
    } else {
        0
    }
}

/// The value of a string of hex digits, most significant first.
pub open spec fn hex_val_of(s: Seq<char>) -> nat
    decreases s.len(),
{
    if s.len() == 0 {
        0
    } else {
        hex_val_of(s.drop_last()) * 16 + hex_digit_val(s.last())
    }
}

proof fn lemma_hex_val_bounds(s: Seq<char>)
    ensures
        s.len() <= 3 ==> hex_val_of(s) <= 0xfff,
        s.len() <= 4 ==> hex_val_of(s) <= 0xffff,
    decreases s.len(),
{
    if s.len() > 0 {
        lemma_hex_val_bounds(s.drop_last());
        lemma_hex_val_two(s.drop_last());
    }
}

proof fn lemma_hex_val_two(s: Seq<char>)
    ensures
        s.len() <= 2 ==> hex_val_of(s) <= 0xff,
        s.len() <= 1 ==> hex_val_of(s) <= 0xf,
    decreases s.len(),
{
    if s.len() > 0 {
        lemma_hex_val_two(s.drop_last());
    }
}

/// Index of the first colon at or after `i`, or the length.
pub open spec fn colon_pos(s: Seq<char>, i: int) -> int
    decreases s.len() - i,
{
    if i < 0 || i >= s.len() || s[i] == ':' {
        i
    } else {
        colon_pos(s, i + 1)
    }
}

/// A textual IPv6 unique-local address: the hex group before the first
/// colon reads as a value in fc00..fdff, the fc00::/7 block.
pub open spec fn spec_is_ula(ip: Seq<char>) -> bool {
    let k = colon_pos(ip, 0);
    &&& k < ip.len()
    &&& 1 <= k <= 4
    &&& (forall|j: int| 0 <= j < k ==> is_hex_digit(ip[j]))
    &&& 0xfc00 <= hex_val_of(ip.subrange(0, k)) <= 0xfdff
}

fn char_is_hex_digit(c: char) -> (r: bool)
    ensures
        r == is_hex_digit(c),
{
    let u = c as u32;
    (48 <= u && u <= 57) || (97 <= u && u <= 102) || (65 <= u && u <= 70)
}

fn char_hex_val(c: char) -> (r: u32)
    ensures
        r as nat == hex_digit_val(c),
        r <= 15,
{
    let u = c as u32;
    if 48 <= u && u <= 57 {
        u - 48
    } else if 97 <= u && u <= 102 {
        u - 87
    } else if 65 <= u && u <= 70 {
        u - 55
    } else {
        0
    }
}

fn colon_pos_exec(st: &str, i: usize) -> (r: usize)
    requires
        i <= st@.len(),
    ensures
        r as int == colon_pos(st@, i as int),
        i <= r <= st@.len(),
    decreases st@.len() - i,
{
    let m: usize = st.unicode_len();
    if i >= m {
        i
    } else if st.get_char(i) == ':' {
        i
    } else {
        colon_pos_exec(st, i + 1)
    }
}

/// Whether the text is a unique-local IPv6 address, by its first group.
pub fn is_ula(ip: &String) -> (r: bool)
    ensures
        r == spec_is_ula(ip@),
{
    let st = ip.as_str();
    let m: usize = st.unicode_len();
    let k = colon_pos_exec(st, 0);
    if k >= m || k < 1 || k > 4 {
        return false;
    }
    let mut j: usize = 0;
    let mut acc: u32 = 0;
    while j < k
        invariant
            0 <= j <= k,
            1 <= k <= 4,
            k < m,
            k as int == colon_pos(ip@, 0),
            m == st@.len(),
            st@ == ip@,
            forall|t: int| 0 <= t < j ==> is_hex_digit(ip@[t]),
            acc as nat == hex_val_of(ip@.subrange(0, j as int)),
            acc <= 0xffff,
        decreases k - j,
    {
        let c = st.get_char(j);
        if !char_is_hex_digit(c) {
            return false;
        }
        proof {
            lemma_hex_val_bounds(ip@.subrange(0, j as int));
        }
        let d = char_hex_val(c);
        acc = acc * 16 + d;
        proof {
            assert(ip@.subrange(0, j as int + 1).drop_last() =~= ip@.subrange(0, j as int));
        }
        j += 1;
    }
    assert(ip@.subrange(0, k as int) == ip@.subrange(0, j as int));
    0xfc00 <= acc && acc <= 0xfdff
}

/// A private address, as this agent recognises one: the RFC1918 IPv4
/// blocks written as string prefixes, or an IPv6 unique-local address
/// in fc00::/7.
pub open spec fn spec_is_private_ip(ip: Seq<char>) -> bool {
    ||| has_prefix(ip, "10."@)
    ||| has_prefix(ip, "192.168."@)
    ||| has_prefix(ip, "172.16."@)
    ||| has_prefix(ip, "172.17."@)
    ||| has_prefix(ip, "172.18."@)
    ||| has_prefix(ip, "172.19."@)
    ||| has_prefix(ip, "172.20."@)
    ||| has_prefix(ip, "172.21."@)
    ||| has_prefix(ip, "172.22."@)
    ||| has_prefix(ip, "172.23."@)
    ||| has_prefix(ip, "172.24."@)
    ||| has_prefix(ip, "172.25."@)
    ||| has_prefix(ip, "172.26."@)
    ||| has_prefix(ip, "172.27."@)
    ||| has_prefix(ip, "172.28."@)
    ||| has_prefix(ip, "172.29."@)
    ||| has_prefix(ip, "172.30."@)
    ||| has_prefix(ip, "172.31."@)
    ||| spec_is_ula(ip)
}

pub fn is_private_ip(ip: &String) -> (r: bool)
    ensures
        r == spec_is_private_ip(ip@),
{
    let s = ip.as_str();
    str_has_prefix(s, "10.") || str_has_prefix(s, "192.168.") || str_has_prefix(s, "172.16.")
        || str_has_prefix(s, "172.17.") || str_has_prefix(s, "172.18.") || str_has_prefix(
        s,
        "172.19.",
    ) || str_has_prefix(s, "172.20.") || str_has_prefix(s, "172.21.") || str_has_prefix(
        s,
        "172.22.",
    ) || str_has_prefix(s, "172.23.") || str_has_prefix(s, "172.24.") || str_has_prefix(
        s,
        "172.25.",
    ) || str_has_prefix(s, "172.26.") || str_has_prefix(s, "172.27.") || str_has_prefix(
        s,
        "172.28.",
    ) || str_has_prefix(s, "172.29.") || str_has_prefix(s, "172.30.") || str_has_prefix(
        s,
        "172.31.",
    ) || is_ula(ip)
}

/// An address may be advertised for registration exactly when it is
/// private.
pub fn is_valid_ip(ip: &String) -> (r: bool)
    ensures
        r == spec_is_private_ip(ip@),
{
    is_private_ip(ip)
}

/// Reading the route-query output: a route is listed exactly when the
/// output has any non-blank text.
pub fn route_query_shows_route(output: &String) -> (r: bool)
    ensures
        r == contains_nonblank(output@),
{
    has_nonblank(output)
}

/// Reading the stderr of a route add or delete: the command succeeded
/// exactly when stderr is blank.
pub fn route_command_ok(stderr: &String) -> (r: bool)
    ensures
        r == !contains_nonblank(stderr@),
{
    !has_nonblank(stderr)
}

/// The gateway column of the route-print output used on Windows: the
/// third whitespace-separated token.
pub fn gateway_from_route_print(output: &String) -> (r: Option<String>)
    ensures
        match r {
            Some(t) => tokens_of(output@).len() > 2 && t@ == tokens_of(output@)[2],
            None => tokens_of(output@).len() <= 2,
        },
{
    nth_token(output, 2)
}

/// The gateway as the POSIX commands print it: the whole output, with
/// surrounding whitespace removed.
pub fn gateway_from_command_output(output: &String) -> (r: String)
    ensures
        r@ == trimmed(output@),
{
    trim_blank(output)
}

/// The destinations of the listed routes: the first token of each
/// non-blank line of the route-table output.
pub fn flush_targets(output: &String) -> (r: Vec<String>)
    ensures
        r.deep_view() == line_heads_of(output@),
{
    line_heads(output)
}

} // verus!
