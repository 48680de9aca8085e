//! Character-level helpers shared by the validators, the route-output
//! parsers and the codecs: prefix tests, ASCII trimming, whitespace
//! tokenisation and decimal rendering of integers.

use vstd::prelude::*;

verus! {

/// The characters that `split_ascii_whitespace` and friends treat as blank.
pub open spec fn is_blank(c: char) -> bool {
    c == ' ' || c == '\t' || c == '\n' || c == '\r' || c == '\x0c'
}

pub open spec fn has_prefix(s: Seq<char>, p: Seq<char>) -> bool {
    p.len() <= s.len() && s.subrange(0, p.len() as int) == p
}

/// Whether `s` begins with the characters of `p`.
pub fn str_has_prefix(s: &str, p: &str) -> (r: bool)
    ensures
        r == has_prefix(s@, p@),
{
    let n: usize = p.unicode_len();
    let m: usize = s.unicode_len();
    if n > m {
        return false;
    }
    let mut i: usize = 0;
    while i < n
        invariant
            0 <= i <= n,
            n == p@.len(),
            n <= m,
            m == s@.len(),
            forall|j: int| 0 <= j < i ==> s@[j] == p@[j],
        decreases n - i,
    {
        if s.get_char(i) != p.get_char(i) {
            assert(s@.subrange(0, n as int) != p@) by {
                assert(s@.subrange(0, n as int)[i as int] != p@[i as int]);
            }
            return false;
        }
        i += 1;
    }
    assert(s@.subrange(0, n as int) =~= p@);
    true
}

pub fn char_is_blank(c: char) -> (r: bool)
    ensures
        r == is_blank(c),
{
    c == ' ' || c == '\t' || c == '\n' || c == '\r' || c == '\x0c'
}

pub open spec fn contains_nonblank(s: Seq<char>) -> bool {
    exists|i: int| 0 <= i < s.len() && !is_blank(s[i])
}

/// Whether the text holds any non-whitespace character, i.e. whether
/// splitting it on whitespace yields at least one token.
pub fn has_nonblank(s: &String) -> (r: bool)
    ensures
        r == contains_nonblank(s@),
{
    let st = s.as_str();
    let m: usize = st.unicode_len();
    let mut i: usize = 0;
    while i < m
        invariant
            0 <= i <= m,
            m == st@.len(),
            st@ == s@,
            forall|j: int| 0 <= j < i ==> is_blank(s@[j]),
        decreases m - i,
    {
        if !char_is_blank(st.get_char(i)) {
            return true;
        }
        i += 1;
    }
    false
}

/// The characters `str::trim` removes: Unicode White_Space.
pub open spec fn is_space(c: char) -> bool {
    ||| is_blank(c)
    ||| c as u32 == 0x0b
    ||| c as u32 == 0x85
    ||| c as u32 == 0xa0
    ||| c as u32 == 0x1680
    ||| (0x2000 <= c as u32 && c as u32 <= 0x200a)
    ||| c as u32 == 0x2028
    ||| c as u32 == 0x2029
    ||| c as u32 == 0x202f
    ||| c as u32 == 0x205f
    ||| c as u32 == 0x3000
}

pub fn char_is_space(c: char) -> (r: bool)
    ensures
        r == is_space(c),
{
    let u = c as u32;
    char_is_blank(c) || u == 0x0b || u == 0x85 || u == 0xa0 || u == 0x1680 || (0x2000 <= u && u
        <= 0x200a) || u == 0x2028 || u == 0x2029 || u == 0x202f || u == 0x205f || u == 0x3000
}

/// Index of the first non-space character at or after `i`, or the length.
pub open spec fn skip_blanks(s: Seq<char>, i: int) -> int
    decreases s.len() - i,
{
    if i < 0 || i >= s.len() {
        s.len() as int
    } else if is_space(s[i]) {
        skip_blanks(s, i + 1)
    } else {
        i
    }
}

/// Index just past the last non-space character at or before `i`, or 0.
pub open spec fn rskip_blanks(s: Seq<char>, i: int) -> int
    decreases i + 1,
{
    if i < 0 || i >= s.len() {
        0
    } else if is_space(s[i]) {
        rskip_blanks(s, i - 1)
    } else {
        i + 1
    }
}

pub open spec fn trimmed(s: Seq<char>) -> Seq<char> {
    let a = skip_blanks(s, 0);
    let b = rskip_blanks(s, s.len() - 1);
    if a < b {
        s.subrange(a, b)
    } else {
        Seq::empty()
    }
}

proof fn lemma_skip_blanks_bounds(s: Seq<char>, i: int)
    requires
        0 <= i <= s.len(),
    ensures
        i <= skip_blanks(s, i) <= s.len(),
        forall|j: int| i <= j < skip_blanks(s, i) ==> is_space(s[j]),
        skip_blanks(s, i) < s.len() ==> !is_space(s[skip_blanks(s, i)]),
    decreases s.len() - i,
{
    if i < s.len() && is_space(s[i]) {
        lemma_skip_blanks_bounds(s, i + 1);
    }
}

proof fn lemma_rskip_blanks_bounds(s: Seq<char>, i: int)
    requires
        -1 <= i < s.len(),
    ensures
        0 <= rskip_blanks(s, i) <= i + 1,
        forall|j: int| rskip_blanks(s, i) <= j <= i ==> is_space(s[j]),
    decreases i + 1,
{
    if 0 <= i && is_space(s[i]) {
        lemma_rskip_blanks_bounds(s, i - 1);
    }
}

/// The text with leading and trailing whitespace removed, the set of
/// space characters being the one `str::trim` uses.
pub fn trim_blank(s: &String) -> (r: String)
    ensures
        r@ == trimmed(s@),
{
    let st = s.as_str();
    let m: usize = st.unicode_len();
    let mut a: usize = 0;
    while a < m && char_is_space(st.get_char(a))
        invariant
            0 <= a <= m,
            m == st@.len(),
            st@ == s@,
            skip_blanks(s@, 0) == skip_blanks(s@, a as int),
        decreases m - a,
    {
        a += 1;
    }
    assert(skip_blanks(s@, a as int) == a as int);
    let mut b: usize = m;
    while b > a && char_is_space(st.get_char(b - 1))
        invariant
            a <= b <= m,
            m == st@.len(),
            st@ == s@,
            skip_blanks(s@, 0) == a as int,
            rskip_blanks(s@, m - 1) == rskip_blanks(s@, b - 1),
        decreases b,
    {
        b -= 1;
    }
    if b <= a {
        proof {
            lemma_skip_blanks_bounds(s@, 0);
            if b >= 1 {
                lemma_rskip_blanks_bounds(s@, b as int - 1);
            }
        }
        String::new()
    } else {
        assert(rskip_blanks(s@, b - 1) == b as int);
        String::from_str(st.substring_char(a, b))
    }
}

pub open spec fn digit_char(d: nat) -> char {
    ((48 + d) as u8) as char
}

/// The decimal digits of `n`, most significant first.
pub open spec fn dec_chars_of(n: nat) -> Seq<char>
    decreases n,
{
    if n < 10 {
        seq![digit_char(n)]
    } else {
        dec_chars_of(n / 10).push(digit_char(n % 10))
    }
}

/// The same digits as bytes, as they appear in UTF-8 text.
pub open spec fn dec_bytes_of(n: nat) -> Seq<u8> {
    Seq::new(dec_chars_of(n).len(), |i: int| dec_chars_of(n)[i] as u8)
}

fn digit_str(d: u64) -> (r: &'static str)
    requires
        d < 10,
    ensures
        r@ =~= seq![digit_char(d as nat)],
{
    proof {
        reveal_strlit("0");
        reveal_strlit("1");
        reveal_strlit("2");
        reveal_strlit("3");
        reveal_strlit("4");
        reveal_strlit("5");
        reveal_strlit("6");
        reveal_strlit("7");
        reveal_strlit("8");
        reveal_strlit("9");
    }
    match d {
        0 => "0",
        1 => "1",
        2 => "2",
        3 => "3",
        4 => "4",
        5 => "5",
        6 => "6",
        7 => "7",
        8 => "8",
        _ => "9",
    }
}

/// `n` written in decimal, as `to_string` writes it.
pub fn u64_to_string(n: u64) -> (r: String)
    ensures
        r@ == dec_chars_of(n as nat),
    decreases n,
{
    if n < 10 {
        String::from_str(digit_str(n))
    } else {
        let mut s = u64_to_string(n / 10);
        s.append(digit_str(n % 10));
        assert(s@ =~= dec_chars_of(n as nat));
        s
    }
}

pub proof fn lemma_dec_chars_ascii(n: nat)
    ensures
        vstd::utf8::is_ascii_chars(dec_chars_of(n)),
        vstd::utf8::encode_utf8(dec_chars_of(n)) == dec_bytes_of(n),
    decreases n,
{
    if n >= 10 {
        lemma_dec_chars_ascii(n / 10);
    }
    assert(vstd::utf8::is_ascii_chars(dec_chars_of(n))) by {
        vstd::utf8::is_ascii_chars_nat_bound(dec_chars_of(n));
    }
    vstd::utf8::is_ascii_chars_encode_utf8(dec_chars_of(n));
    assert(vstd::utf8::encode_utf8(dec_chars_of(n)) =~= dec_bytes_of(n));
}

/// The text with every double-quote character removed.
pub open spec fn without_quotes(s: Seq<char>) -> Seq<char>
    decreases s.len(),
{
    if s.len() == 0 {
        Seq::empty()
    } else if s[0] == '"' {
        without_quotes(s.drop_first())
    } else {
        seq![s[0]] + without_quotes(s.drop_first())
    }
}

pub fn strip_quotes(s: &String) -> (r: String)
    ensures
        r@ == without_quotes(s@),
{
    let st = s.as_str();
    let m: usize = st.unicode_len();
    let mut r = String::new();
    let mut i: usize = 0;
    proof {
        assert(s@.skip(0) =~= s@);
    }
    while i < m
        invariant
            0 <= i <= m,
            m == st@.len(),
            st@ == s@,
            r@ + without_quotes(s@.skip(i as int)) == without_quotes(s@),
        decreases m - i,
    {
        let ghost pre = r@;
        let c = st.get_char(i);
        if c != '"' {
            r.append(st.substring_char(i, i + 1));
            assert(r@ == pre + seq![s@[i as int]]);
        }
        proof {
            let rest = s@.skip(i as int);
            assert(rest.drop_first() =~= s@.skip(i as int + 1));
            assert(rest[0] == s@[i as int]);
            if c != '"' {
                assert(pre + (seq![s@[i as int]] + without_quotes(s@.skip(i as int + 1)))
                    =~= r@ + without_quotes(s@.skip(i as int + 1)));
            }
        }
        i += 1;
    }
    proof {
        assert(s@.skip(m as int) =~= Seq::empty());
    }
    r
}

/// Index just past the run of non-blank characters starting at `i`.
pub open spec fn token_end(s: Seq<char>, i: int) -> int
    decreases s.len() - i,
{
    if i < 0 || i >= s.len() || is_blank(s[i]) {
        i
    } else {
        token_end(s, i + 1)
    }
}

proof fn lemma_token_end_bounds(s: Seq<char>, i: int)
    requires
        0 <= i <= s.len(),
    ensures
        i <= token_end(s, i) <= s.len(),
        i < s.len() && !is_blank(s[i]) ==> i < token_end(s, i),
    decreases s.len() - i,
{
    if i < s.len() && !is_blank(s[i]) {
        lemma_token_end_bounds(s, i + 1);
    }
}

/// The whitespace-separated tokens of `s`, from position `i` on.
pub open spec fn tokens_from(s: Seq<char>, i: int) -> Seq<Seq<char>>
    decreases s.len() - i,
        when 0 <= i
        via tokens_from_dec
{
    if i >= s.len() {
        Seq::empty()
    } else if is_blank(s[i]) {
        tokens_from(s, i + 1)
    } else {
        seq![s.subrange(i, token_end(s, i))] + tokens_from(s, token_end(s, i))
    }
}

#[via_fn]
proof fn tokens_from_dec(s: Seq<char>, i: int) {
    if 0 <= i < s.len() && !is_blank(s[i]) {
        lemma_token_end_bounds(s, i);
    }
}

pub open spec fn tokens_of(s: Seq<char>) -> Seq<Seq<char>> {
    tokens_from(s, 0)
}

fn token_end_exec(st: &str, i: usize) -> (r: usize)
    requires
        i <= st@.len(),
    ensures
        r as int == token_end(st@, i as int),
        i <= r <= st@.len(),
    decreases st@.len() - i,
{
    let m: usize = st.unicode_len();
    if i >= m {
        i
    } else if char_is_blank(st.get_char(i)) {
        i
    } else {
        token_end_exec(st, i + 1)
    }
}

fn nth_token_from(st: &str, i: usize, n: usize) -> (r: Option<String>)
    requires
        i <= st@.len(),
    ensures
        match r {
            Some(t) => (n as int) < tokens_from(st@, i as int).len() && t@ == tokens_from(
                st@,
                i as int,
            )[n as int],
            None => tokens_from(st@, i as int).len() <= n as int,
        },
    decreases st@.len() - i,
{
    let m: usize = st.unicode_len();
    if i >= m {
        None
    } else if char_is_blank(st.get_char(i)) {
        nth_token_from(st, i + 1, n)
    } else {
        let e = token_end_exec(st, i);
        proof {
            lemma_token_end_bounds(st@, i as int);
        }
        if n == 0 {
            Some(String::from_str(st.substring_char(i, e)))
        } else {
            nth_token_from(st, e, n - 1)
        }
    }
}

/// The `n`-th whitespace-separated token of `s`, if there are that many.
pub fn nth_token(s: &String, n: usize) -> (r: Option<String>)
    ensures
        match r {
            Some(t) => (n as int) < tokens_of(s@).len() && t@ == tokens_of(s@)[n as int],
            None => tokens_of(s@).len() <= n as int,
        },
{
    nth_token_from(s.as_str(), 0, n)
}

/// Index of the next line break at or after `i`, or the length.
pub open spec fn line_end(s: Seq<char>, i: int) -> int
    decreases s.len() - i,
{
    if i < 0 || i >= s.len() || s[i] == '\n' {
        i
    } else {
        line_end(s, i + 1)
    }
}

proof fn lemma_line_end_bounds(s: Seq<char>, i: int)
    requires
        0 <= i <= s.len(),
    ensures
        i <= line_end(s, i) <= s.len(),
    decreases s.len() - i,
{
    if i < s.len() && s[i] != '\n' {
        lemma_line_end_bounds(s, i + 1);
    }
}

/// The first token of each line that has one, from position `i` on.
pub open spec fn line_heads_from(s: Seq<char>, i: int) -> Seq<Seq<char>>
    decreases s.len() - i,
        when 0 <= i
        via line_heads_from_dec
{
    if i >= s.len() {
        Seq::empty()
    } else {
        let e = line_end(s, i);
        let line_tokens = tokens_of(s.subrange(i, e));
        let head = if line_tokens.len() > 0 {
            seq![line_tokens[0]]
        } else {
            Seq::empty()
        };
        if e >= s.len() {
            head
        } else {
            head + line_heads_from(s, e + 1)
        }
    }
}

#[via_fn]
proof fn line_heads_from_dec(s: Seq<char>, i: int) {
    if 0 <= i < s.len() {
        lemma_line_end_bounds(s, i);
    }
}

pub open spec fn line_heads_of(s: Seq<char>) -> Seq<Seq<char>> {
    line_heads_from(s, 0)
}

fn line_end_exec(st: &str, i: usize) -> (r: usize)
    requires
        i <= st@.len(),
    ensures
        r as int == line_end(st@, i as int),
        i <= r <= st@.len(),
    decreases st@.len() - i,
{
    let m: usize = st.unicode_len();
    if i >= m {
        i
    } else if st.get_char(i) == '\n' {
        i
    } else {
        line_end_exec(st, i + 1)
    }
}

fn line_heads_from_exec(st: &str, i: usize) -> (r: Vec<String>)
    requires
        i <= st@.len(),
    ensures
        r.deep_view() == line_heads_from(st@, i as int),
    decreases st@.len() - i,
{
    let m: usize = st.unicode_len();
    if i >= m {
        let r: Vec<String> = Vec::new();
        assert(r.deep_view() =~= line_heads_from(st@, i as int));
        r
    } else {
        let e = line_end_exec(st, i);
        let line = st.substring_char(i, e);
        let head = nth_token_from(line, 0, 0);
        let mut r: Vec<String> = Vec::new();
        match head {
            Some(t) => { r.push(t); },
            None => {},
        }
        if e < m {
            let mut rest = line_heads_from_exec(st, e + 1);
            r.append(&mut rest);
        }
        assert(r.deep_view() =~= line_heads_from(st@, i as int));
        r
    }
}

/// The first whitespace-separated token of each non-blank line of `s`.
pub fn line_heads(s: &String) -> (r: Vec<String>)
    ensures
        r.deep_view() == line_heads_of(s@),
{
    line_heads_from_exec(s.as_str(), 0)
}

} // verus!
