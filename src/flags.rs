use vstd::prelude::*;

verus! {

/// Characters that `str::trim` removes: the Unicode `White_Space` property.
pub open spec fn is_whitespace(c: char) -> bool {
    ('\u{9}' <= c <= '\u{d}') || c == ' ' || c == '\u{85}' || c == '\u{a0}' || c == '\u{1680}'
        || ('\u{2000}' <= c <= '\u{200a}') || c == '\u{2028}' || c == '\u{2029}' || c
        == '\u{202f}' || c == '\u{205f}' || c == '\u{3000}'
}

pub open spec fn trim_start_ws(s: Seq<char>) -> Seq<char>
    decreases s.len(),
{
    if s.len() > 0 && is_whitespace(s[0]) {
        trim_start_ws(s.drop_first())
    } else {
        s
    }
}

pub open spec fn trim_end_ws(s: Seq<char>) -> Seq<char>
    decreases s.len(),
{
    if s.len() > 0 && is_whitespace(s.last()) {
        trim_end_ws(s.drop_last())
    } else {
        s
    }
}

/// `s` with every leading repetition of `0x` removed.
pub open spec fn strip_hex_prefixes(s: Seq<char>) -> Seq<char>
    decreases s.len(),
{
    if s.len() >= 2 && s[0] == '0' && s[1] == 'x' {
        strip_hex_prefixes(s.subrange(2, s.len() as int))
    } else {
        s
    }
}

pub open spec fn is_hex_digit(c: char) -> bool {
    ('0' <= c <= '9') || ('a' <= c <= 'f') || ('A' <= c <= 'F')
}

pub open spec fn hex_digit_value(c: char) -> nat {
    if '0' <= c <= '9' {
        (c as nat - '0' as nat) as nat
    } else if 'a' <= c <= 'f' {
        (c as nat - 'a' as nat + 10) as nat
    } else {
        (c as nat - 'A' as nat + 10) as nat
    }
}

/// The number that a string of hexadecimal digits denotes.
pub open spec fn hex_value(s: Seq<char>) -> nat
    decreases s.len(),
{
    if s.len() == 0 {
        0
    } else {
        hex_value(s.drop_last()) * 16 + hex_digit_value(s.last())
    }
}

pub open spec fn all_hex_digits(s: Seq<char>) -> bool {
    forall|i: int| 0 <= i < s.len() ==> is_hex_digit(#[trigger] s[i])
}

/// `s` without its leading `+`, if it has one.
pub open spec fn unsigned_digits(s: Seq<char>) -> Seq<char> {
    if s.len() > 0 && s[0] == '+' {
        s.drop_first()
    } else {
        s
    }
}

/// What `u32::from_str_radix(s, 16)` accepts: an optional `+`, then one or more
/// hexadecimal digits whose value fits in 32 bits.
pub open spec fn parse_hex_u32(s: Seq<char>) -> Option<u32> {
    let digits = unsigned_digits(s);
    if digits.len() > 0 && all_hex_digits(digits) && hex_value(digits) <= u32::MAX {
        Some(hex_value(digits) as u32)
    } else {
        None
    }
}

/// The value held by a flags node: surrounding whitespace and leading `0x` are ignored.
pub open spec fn parse_flags(contents: Seq<char>) -> Option<u32> {
    parse_hex_u32(strip_hex_prefixes(trim_end_ws(trim_start_ws(contents))))
}

pub open spec fn upper_hex_char(d: nat) -> char {
    if d < 10 {
        (d + '0' as nat) as char
    } else {
        (d - 10 + 'A' as nat) as char
    }
}

/// Upper-case hexadecimal digits of `v`, without leading zeros.
pub open spec fn upper_hex(v: nat) -> Seq<char>
    decreases v,
{
    if v < 16 {
        seq![upper_hex_char(v)]
    } else {
        upper_hex(v / 16).push(upper_hex_char(v % 16))
    }
}

/// What is written to a flags node: `0x` and the upper-case hexadecimal digits.
pub open spec fn format_flags(v: u32) -> Seq<char> {
    seq!['0', 'x'] + upper_hex(v as nat)
}

fn upper_hex_digit(d: u32) -> (r: &'static str)
    requires
        d < 16,
    ensures
        r@ == seq![upper_hex_char(d as nat)],
{
    let digits = "0123456789ABCDEF";
    proof {
        reveal_strlit("0123456789ABCDEF");
    }
    let r = digits.substring_char(d as usize, d as usize + 1);
    proof {
        assert(r@ =~= seq![upper_hex_char(d as nat)]);
    }
    r
}

fn upper_hex_string(v: u32) -> (r: String)
    ensures
        r@ == upper_hex(v as nat),
    decreases v,
{
    if v < 16 {
        String::from_str(upper_hex_digit(v))
    } else {
        let mut s = upper_hex_string(v / 16);
        s.append(upper_hex_digit(v % 16));
        proof {
            assert(s@ =~= upper_hex(v as nat));
        }
        s
    }
}

/// Renders flags as they are written to a device: `0x` followed by upper-case hex.
pub fn flags_to_hex(v: u32) -> (r: String)
    ensures
        r@ == format_flags(v),
{
    let mut s = String::from_str("0x");
    proof {
        reveal_strlit("0x");
    }
    let digits = upper_hex_string(v);
    s.append(digits.as_str());
    proof {
        assert(s@ =~= format_flags(v));
    }
    s
}

fn is_ws_char(c: char) -> (r: bool)
    ensures
        r == is_whitespace(c),
{
    ('\u{9}' <= c && c <= '\u{d}') || c == ' ' || c == '\u{85}' || c == '\u{a0}' || c
        == '\u{1680}' || ('\u{2000}' <= c && c <= '\u{200a}') || c == '\u{2028}' || c
        == '\u{2029}' || c == '\u{202f}' || c == '\u{205f}' || c == '\u{3000}'
}

fn trim_ws<'a>(s: &'a str) -> (r: &'a str)
    ensures
        r@ == trim_end_ws(trim_start_ws(s@)),
{
    let n = s.unicode_len();
    let mut i: usize = 0;
    assert(s@.subrange(0, n as int) =~= s@);
    while i < n && is_ws_char(s.get_char(i))
        invariant
            i <= n,
            n == s@.len(),
            trim_start_ws(s@.subrange(i as int, n as int)) == trim_start_ws(s@),
        decreases n - i,
    {
        proof {
            assert(s@.subrange(i as int, n as int).drop_first() =~= s@.subrange(i + 1, n as int));
        }
        i = i + 1;
    }
    proof {
        let t = s@.subrange(i as int, n as int);
        if t.len() > 0 {
            assert(t[0] == s@[i as int]);
        }
    }
    let mut j: usize = n;
    assert(s@.subrange(i as int, j as int) == trim_start_ws(s@));
    while j > i && is_ws_char(s.get_char(j - 1))
        invariant
            i <= j <= n,
            n == s@.len(),
            trim_end_ws(s@.subrange(i as int, j as int)) == trim_end_ws(trim_start_ws(s@)),
        decreases j,
    {
        proof {
            assert(s@.subrange(i as int, j as int).drop_last() =~= s@.subrange(
                i as int,
                j - 1,
            ));
        }
        j = j - 1;
    }
    proof {
        let t = s@.subrange(i as int, j as int);
        if t.len() > 0 {
            assert(t.last() == s@[j - 1]);
        }
    }
    s.substring_char(i, j)
}

fn strip_hex_prefixes_str<'a>(s: &'a str) -> (r: &'a str)
    ensures
        r@ == strip_hex_prefixes(s@),
{
    let n = s.unicode_len();
    let mut i: usize = 0;
    assert(s@.subrange(0, n as int) =~= s@);
    while n - i >= 2 && s.get_char(i) == '0' && s.get_char(i + 1) == 'x'
        invariant
            i <= n,
            n == s@.len(),
            strip_hex_prefixes(s@.subrange(i as int, n as int)) == strip_hex_prefixes(s@),
        decreases n - i,
    {
        proof {
            let t = s@.subrange(i as int, n as int);
            assert(t[0] == s@[i as int] && t[1] == s@[i + 1]);
            assert(t.subrange(2, t.len() as int) =~= s@.subrange(i + 2, n as int));
        }
        i = i + 2;
    }
    proof {
        let t = s@.subrange(i as int, n as int);
        if t.len() >= 2 {
            assert(t[0] == s@[i as int] && t[1] == s@[i + 1]);
        }
    }
    s.substring_char(i, n)
}

fn hex_digit_of(c: char) -> (r: Option<u32>)
    ensures
        r.is_some() == is_hex_digit(c),
        r.is_some() ==> r.unwrap() == hex_digit_value(c) && r.unwrap() < 16,
{
    if '0' <= c && c <= '9' {
        Some(c as u32 - '0' as u32)
    } else if 'a' <= c && c <= 'f' {
        Some(c as u32 - 'a' as u32 + 10)
    } else if 'A' <= c && c <= 'F' {
        Some(c as u32 - 'A' as u32 + 10)
    } else {
        None
    }
}

proof fn lemma_hex_value_grows(s: Seq<char>, i: int, j: int)
    requires
        0 <= i <= j <= s.len(),
    ensures
        hex_value(s.subrange(0, i)) <= hex_value(s.subrange(0, j)),
    decreases j - i,
{
    if i < j {
        lemma_hex_value_grows(s, i, j - 1);
        assert(s.subrange(0, j).drop_last() =~= s.subrange(0, j - 1));
    }
}

/// Parses hexadecimal text as `u32::from_str_radix(s, 16)` does.
fn parse_hex_str(s: &str) -> (r: Option<u32>)
    ensures
        r == parse_hex_u32(s@),
{
    let n = s.unicode_len();
    let mut start: usize = 0;
    if n > 0 && s.get_char(0) == '+' {
        start = 1;
    }
    let ghost digits = s@.subrange(start as int, n as int);
    assert(digits =~= unsigned_digits(s@));
    if start == n {
        return None;
    }
    let mut acc: u64 = 0;
    let mut i: usize = start;
    while i < n
        invariant
            start <= i <= n,
            n == s@.len(),
            digits == s@.subrange(start as int, n as int),
            digits == unsigned_digits(s@),
            all_hex_digits(digits.subrange(0, i - start)),
            acc == hex_value(digits.subrange(0, i - start)),
            acc <= u32::MAX,
        decreases n - i,
    {
        let c = s.get_char(i);
        let d = hex_digit_of(c);
        assert(digits[i - start] == c);
        match d {
            None => {
                assert(!is_hex_digit(digits[i - start]));
                assert(!all_hex_digits(digits));
                assert(parse_hex_u32(s@).is_none());
                return None;
            },
            Some(d) => {
                proof {
                    assert(digits.subrange(0, i + 1 - start).drop_last() =~= digits.subrange(
                        0,
                        i - start,
                    ));
                }
                let next = acc * 16 + d as u64;
                if next > u32::MAX as u64 {
                    proof {
                        let pre = digits.subrange(0, i + 1 - start);
                        assert(pre.last() == c);
                        assert(hex_value(pre) == acc * 16 + d);
                        lemma_hex_value_grows(digits, i + 1 - start, digits.len() as int);
                        assert(digits.subrange(0, digits.len() as int) =~= digits);
                        assert(hex_value(digits) > u32::MAX);
                        assert(parse_hex_u32(s@).is_none());
                    }
                    return None;
                }
                proof {
                    let pre = digits.subrange(0, i + 1 - start);
                    assert(pre.last() == c);
                    assert(hex_value(pre) == next);
                }
                acc = next;
                i = i + 1;
                proof {
                    assert forall|k: int| 0 <= k < i - start implies is_hex_digit(
                        #[trigger] digits.subrange(0, i - start)[k],
                    ) by {
                        if k < i - 1 - start {
                            assert(digits.subrange(0, i - 1 - start)[k] == digits[k]);
                        }
                    }
                }
            },
        }
    }
    assert(digits.subrange(0, n - start) =~= digits);
    Some(acc as u32)
}

/// Reads a flags value out of the contents of a flags node; `None` when it holds no
/// 32-bit hexadecimal number.
pub fn flags_from_text(contents: &str) -> (r: Option<u32>)
    ensures
        r == parse_flags(contents@),
{
    let t = trim_ws(contents);
    let u = strip_hex_prefixes_str(t);
    parse_hex_str(u)
}

proof fn lemma_upper_hex_char(d: nat)
    requires
        d < 16,
    ensures
        is_hex_digit(upper_hex_char(d)),
        hex_digit_value(upper_hex_char(d)) == d,
        !is_whitespace(upper_hex_char(d)),
        upper_hex_char(d) != '+',
        upper_hex_char(d) != 'x',
        d > 0 ==> upper_hex_char(d) != '0',
{
}

proof fn lemma_upper_hex_digits(v: nat)
    ensures
        upper_hex(v).len() > 0,
        upper_hex(v).len() == 1 <==> v < 16,
        all_hex_digits(upper_hex(v)),
        hex_value(upper_hex(v)) == v,
        forall|i: int| 0 <= i < upper_hex(v).len() ==> !is_whitespace(#[trigger] upper_hex(v)[i]),
        upper_hex(v).len() >= 2 ==> upper_hex(v)[0] != '0',
        upper_hex(v)[0] != '+',
    decreases v,
{
    if v < 16 {
        lemma_upper_hex_char(v);
        assert(upper_hex(v).drop_last() =~= Seq::<char>::empty());
        assert(hex_value(Seq::<char>::empty()) == 0);
    } else {
        lemma_upper_hex_digits(v / 16);
        lemma_upper_hex_char(v % 16);
        let p = upper_hex(v / 16);
        let s = upper_hex(v);
        assert(v == (v / 16) * 16 + v % 16);
        assert(s.last() == upper_hex_char(v % 16));
        assert(s.len() > 0);
        assert(hex_value(s) == hex_value(s.drop_last()) * 16 + hex_digit_value(s.last()));
        assert(s.drop_last() =~= p);
        assert(hex_value(s) == hex_value(p) * 16 + v % 16);
        assert(hex_value(p) == v / 16);
        assert(hex_value(s) == v);
        assert(s[0] == p[0]);
        assert forall|i: int| 0 <= i < s.len() implies is_hex_digit(#[trigger] s[i]) by {
            if i < p.len() {
                assert(s[i] == p[i]);
            }
        }
        assert forall|i: int| 0 <= i < s.len() implies !is_whitespace(#[trigger] s[i]) by {
            if i < p.len() {
                assert(s[i] == p[i]);
            }
        }
        if p.len() < 2 {
            assert(v / 16 > 0);
            assert(v / 16 < 16);
            lemma_upper_hex_char(v / 16);
            assert(p[0] == upper_hex_char(v / 16));
        }
    }
}

/// Round trip of flags: what `flags_to_hex` writes, `flags_from_text` reads back as the
/// same value.
pub proof fn lemma_flags_round_trip(v: u32)
    ensures
        parse_flags(format_flags(v)) == Some(v),
{
    let h = upper_hex(v as nat);
    let f = format_flags(v);
    lemma_upper_hex_digits(v as nat);
    assert(f[0] == '0');
    assert(trim_start_ws(f) == f);
    assert(f.last() == h.last());
    assert(trim_end_ws(f) == f);
    assert(f.subrange(2, f.len() as int) =~= h);
    if h.len() >= 2 {
        assert(!(h[0] == '0' && h[1] == 'x'));
    } else {
        assert(h.len() == 1);
    }
    assert(strip_hex_prefixes(h) == h);
    assert(strip_hex_prefixes(f) == h);
}

} // verus!
