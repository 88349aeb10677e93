use vstd::prelude::*;

verus! {

/// `s` with every trailing occurrence of `c` removed.
pub open spec fn trim_end_char(s: Seq<char>, c: char) -> Seq<char>
    decreases s.len(),
{
    if s.len() > 0 && s.last() == c {
        trim_end_char(s.drop_last(), c)
    } else {
        s
    }
}

pub open spec fn starts_with(s: Seq<char>, t: Seq<char>) -> bool {
    t.len() <= s.len() && s.subrange(0, t.len() as int) == t
}

pub open spec fn ends_with(s: Seq<char>, t: Seq<char>) -> bool {
    t.len() <= s.len() && s.subrange(s.len() - t.len(), s.len() as int) == t
}

pub open spec fn occurs_at(s: Seq<char>, t: Seq<char>, i: int) -> bool {
    0 <= i && i + t.len() <= s.len() && s.subrange(i, i + t.len()) == t
}

pub open spec fn contains(s: Seq<char>, t: Seq<char>) -> bool {
    exists|i: int| occurs_at(s, t, i)
}

/// What begins a string is contained in it.
pub proof fn lemma_contains_prefix(a: Seq<char>, b: Seq<char>)
    ensures
        contains(a + b, a),
{
    assert((a + b).subrange(0, a.len() as int) =~= a);
    assert(occurs_at(a + b, a, 0));
}

/// What stands between two strings is contained in their concatenation.
pub proof fn lemma_contains_middle(a: Seq<char>, b: Seq<char>, c: Seq<char>)
    ensures
        contains(a + b + c, b),
{
    assert((a + b + c).subrange(a.len() as int, (a.len() + b.len()) as int) =~= b);
    assert(occurs_at(a + b + c, b, a.len() as int));
}

/// Whether `a` and `b` hold the same characters.
pub fn str_eq(a: &str, b: &str) -> (r: bool)
    ensures
        r == (a@ == b@),
{
    let x = String::from_str(a);
    let y = String::from_str(b);
    x == y
}

pub fn str_starts_with(s: &str, t: &str) -> (r: bool)
    ensures
        r == starts_with(s@, t@),
{
    let n = s.unicode_len();
    let m = t.unicode_len();
    if m > n {
        return false;
    }
    str_eq(s.substring_char(0, m), t)
}

pub fn str_ends_with(s: &str, t: &str) -> (r: bool)
    ensures
        r == ends_with(s@, t@),
{
    let n = s.unicode_len();
    let m = t.unicode_len();
    if m > n {
        return false;
    }
    str_eq(s.substring_char(n - m, n), t)
}

pub fn str_contains(s: &str, t: &str) -> (r: bool)
    ensures
        r == contains(s@, t@),
{
    let n = s.unicode_len();
    let m = t.unicode_len();
    if m > n {
        assert forall|i: int| !occurs_at(s@, t@, i) by {}
        return false;
    }
    let mut i: usize = 0;
    while i <= n - m
        invariant
            n == s@.len(),
            m == t@.len(),
            m <= n,
            i <= n - m,
            forall|k: int| 0 <= k < i ==> !occurs_at(s@, t@, k),
        ensures
            forall|k: int| 0 <= k <= n - m ==> !occurs_at(s@, t@, k),
        decreases n - m - i,
    {
        if str_eq(s.substring_char(i, i + m), t) {
            assert(occurs_at(s@, t@, i as int));
            return true;
        }
        if i == n - m {
            break;
        }
        i = i + 1;
    }
    assert forall|k: int| !occurs_at(s@, t@, k) by {
        if 0 <= k && k + m <= n {
            assert(k <= n - m);
        }
    }
    false
}

proof fn lemma_trim_end_char_step(s: Seq<char>, c: char, j: int)
    requires
        0 < j <= s.len(),
        s[j - 1] == c,
    ensures
        trim_end_char(s.subrange(0, j), c) == trim_end_char(s.subrange(0, j - 1), c),
{
    assert(s.subrange(0, j).drop_last() =~= s.subrange(0, j - 1));
}

/// Removes every trailing occurrence of `c` from `s`.
pub fn trim_end_matches_char(s: &str, c: char) -> (r: String)
    ensures
        r@ == trim_end_char(s@, c),
{
    let n = s.unicode_len();
    let mut j: usize = n;
    assert(s@.subrange(0, n as int) =~= s@);
    while j > 0 && s.get_char(j - 1) == c
        invariant
            j <= n,
            n == s@.len(),
            trim_end_char(s@.subrange(0, j as int), c) == trim_end_char(s@, c),
        decreases j,
    {
        proof {
            lemma_trim_end_char_step(s@, c, j as int);
        }
        j = j - 1;
    }
    let r = String::from_str(s.substring_char(0, j));
    proof {
        let p = s@.subrange(0, j as int);
        if p.len() > 0 {
            assert(p.last() == s@[j - 1]);
        }
    }
    r
}

/// The concatenation of `a` and `b`.
pub fn concat2(a: &str, b: &str) -> (r: String)
    ensures
        r@ == a@ + b@,
{
    let mut s = String::from_str(a);
    s.append(b);
    s
}

/// The concatenation of `a`, `b` and `c`.
pub fn concat3(a: &str, b: &str, c: &str) -> (r: String)
    ensures
        r@ == a@ + b@ + c@,
{
    let mut s = String::from_str(a);
    s.append(b);
    s.append(c);
    s
}

/// Decimal digits of `n`, without leading zeros.
pub open spec fn decimal(n: nat) -> Seq<char>
    decreases n,
{
    if n < 10 {
        seq![(n + '0' as nat) as char]
    } else {
        decimal(n / 10).push(((n % 10) + '0' as nat) as char)
    }
}

fn decimal_digit(d: u64) -> (r: &'static str)
    requires
        d < 10,
    ensures
        r@ == seq![(d + '0' as nat) as char],
{
    let digits = "0123456789";
    proof {
        reveal_strlit("0123456789");
    }
    let r = digits.substring_char(d as usize, d as usize + 1);
    assert(r@ =~= seq![(d + '0' as nat) as char]);
    r
}

/// The decimal representation of `n`.
pub fn u64_to_decimal(n: u64) -> (r: String)
    ensures
        r@ == decimal(n as nat),
    decreases n,
{
    if n < 10 {
        String::from_str(decimal_digit(n))
    } else {
        let mut s = u64_to_decimal(n / 10);
        s.append(decimal_digit(n % 10));
        assert(s@ =~= decimal(n as nat));
        s
    }
}

/// The views of a list of strings.
pub open spec fn views(v: Seq<String>) -> Seq<Seq<char>> {
    v.map_values(|s: String| s@)
}

/// The lines of `lines` joined with newlines between them.
pub open spec fn join_lines(lines: Seq<Seq<char>>) -> Seq<char>
    decreases lines.len(),
{
    if lines.len() == 0 {
        Seq::empty()
    } else if lines.len() == 1 {
        lines[0]
    } else {
        join_lines(lines.drop_last()) + seq!['\n'] + lines.last()
    }
}

/// The strings of `lines` joined with newlines between them.
pub fn join_with_newlines(lines: &Vec<String>) -> (r: String)
    ensures
        r@ == join_lines(views(lines@)),
{
    let mut out = String::new();
    let n = lines.len();
    let mut i: usize = 0;
    while i < n
        invariant
            n == lines@.len(),
            i <= n,
            out@ == join_lines(views(lines@.subrange(0, i as int))),
        decreases n - i,
    {
        proof {
            let pre = lines@.subrange(0, i as int + 1);
            assert(views(pre).drop_last() =~= views(lines@.subrange(0, i as int)));
            assert(views(pre).last() == lines@[i as int]@);
        }
        if i > 0 {
            out.append("\n");
            proof {
                reveal_strlit("\n");
            }
        }
        out.append(lines[i].as_str());
        proof {
            if i == 0 {
                assert(out@ =~= join_lines(views(lines@.subrange(0, 1))));
            } else {
                assert(out@ =~= join_lines(views(lines@.subrange(0, i as int + 1))));
            }
        }
        i = i + 1;
    }
    assert(lines@.subrange(0, n as int) =~= lines@);
    out
}

pub open spec fn lower_hex_char(d: nat) -> char {
    if d < 10 {
        (d + '0' as nat) as char
    } else {
        (d - 10 + 'a' as nat) as char
    }
}

/// Control characters that `{:?}` writes as `\u{..}`: the C0 controls, DEL and the C1
/// controls, except those with a short escape.
pub open spec fn is_escaped_control(c: char) -> bool {
    (c as nat) < 0x20 || (0x7f <= (c as nat) && (c as nat) <= 0x9f)
}

/// How `{:?}` writes one character of a string: the quote, the backslash, NUL, tab,
/// carriage return and line feed with a backslash; other control characters as
/// `\u{..}` in lower-case hex; every other character as it is.
pub open spec fn debug_escape_char(c: char) -> Seq<char> {
    if c == '\0' {
        seq!['\\', '0']
    } else if c == '\t' {
        seq!['\\', 't']
    } else if c == '\r' {
        seq!['\\', 'r']
    } else if c == '\n' {
        seq!['\\', 'n']
    } else if c == '\\' {
        seq!['\\', '\\']
    } else if c == '"' {
        seq!['\\', '"']
    } else if is_escaped_control(c) {
        seq!['\\', 'u', '{'] + (if (c as nat) < 16 {
            seq![lower_hex_char(c as nat)]
        } else {
            seq![lower_hex_char((c as nat) / 16), lower_hex_char((c as nat) % 16)]
        }) + seq!['}']
    } else {
        seq![c]
    }
}

/// `s` with each character written as `{:?}` writes it.
pub open spec fn debug_escaped(s: Seq<char>) -> Seq<char>
    decreases s.len(),
{
    if s.len() == 0 {
        Seq::empty()
    } else {
        debug_escaped(s.drop_last()) + debug_escape_char(s.last())
    }
}

/// `s` as `{:?}` writes it: escaped, between double quotes.
pub open spec fn debug_quoted(s: Seq<char>) -> Seq<char> {
    seq!['"'] + debug_escaped(s) + seq!['"']
}

fn lower_hex_digit(d: u32) -> (r: &'static str)
    requires
        d < 16,
    ensures
        r@ == seq![lower_hex_char(d as nat)],
{
    let digits = "0123456789abcdef";
    proof {
        reveal_strlit("0123456789abcdef");
    }
    let r = digits.substring_char(d as usize, d as usize + 1);
    assert(r@ =~= seq![lower_hex_char(d as nat)]);
    r
}

fn two_chars(lit: &'static str, a: char, b: char) -> (r: String)
    requires
        lit@ == seq![a, b],
    ensures
        r@ == seq![a, b],
{
    String::from_str(lit)
}

/// The `{:?}` form of the character at `i` of `s`.
fn escape_at(s: &str, i: usize) -> (r: String)
    requires
        i < s@.len(),
    ensures
        r@ == debug_escape_char(s@[i as int]),
{
    let len = s.unicode_len();
    let c = s.get_char(i);
    proof {
        reveal_strlit("\\0");
        reveal_strlit("\\t");
        reveal_strlit("\\r");
        reveal_strlit("\\n");
        reveal_strlit("\\\\");
        reveal_strlit("\\\"");
        reveal_strlit("\\u{");
        reveal_strlit("}");
        assert("\\0"@ =~= seq!['\\', '0']);
        assert("\\t"@ =~= seq!['\\', 't']);
        assert("\\r"@ =~= seq!['\\', 'r']);
        assert("\\n"@ =~= seq!['\\', 'n']);
        assert("\\\\"@ =~= seq!['\\', '\\']);
        assert("\\\""@ =~= seq!['\\', '"']);
        assert("\\u{"@ =~= seq!['\\', 'u', '{']);
        assert("}"@ =~= seq!['}']);
    }
    if c == '\0' {
        two_chars("\\0", '\\', '0')
    } else if c == '\t' {
        two_chars("\\t", '\\', 't')
    } else if c == '\r' {
        two_chars("\\r", '\\', 'r')
    } else if c == '\n' {
        two_chars("\\n", '\\', 'n')
    } else if c == '\\' {
        two_chars("\\\\", '\\', '\\')
    } else if c == '"' {
        two_chars("\\\"", '\\', '"')
    } else if (c as u32) < 0x20 || (0x7f <= (c as u32) && (c as u32) <= 0x9f) {
        let n = c as u32;
        let mut out = String::from_str("\\u{");
        if n < 16 {
            out.append(lower_hex_digit(n));
        } else {
            out.append(lower_hex_digit(n / 16));
            out.append(lower_hex_digit(n % 16));
        }
        out.append("}");
        assert(out@ =~= debug_escape_char(c));
        out
    } else {
        let r = String::from_str(s.substring_char(i, i + 1));
        assert(r@ =~= seq![c]);
        r
    }
}

/// `s` as `{:?}` writes it, without the surrounding quotes.
pub fn debug_escape(s: &str) -> (r: String)
    ensures
        r@ == debug_escaped(s@),
{
    let n = s.unicode_len();
    let mut out = String::new();
    let mut i: usize = 0;
    while i < n
        invariant
            i <= n,
            n == s@.len(),
            out@ == debug_escaped(s@.subrange(0, i as int)),
        decreases n - i,
    {
        let e = escape_at(s, i);
        out.append(e.as_str());
        proof {
            let next = s@.subrange(0, i + 1);
            assert(next.drop_last() =~= s@.subrange(0, i as int));
            assert(next.last() == s@[i as int]);
        }
        i = i + 1;
    }
    assert(s@.subrange(0, n as int) =~= s@);
    out
}

/// The bytes in decimal, separated by `, `.
pub open spec fn byte_list(bs: Seq<u8>) -> Seq<char>
    decreases bs.len(),
{
    if bs.len() == 0 {
        Seq::empty()
    } else if bs.len() == 1 {
        decimal(bs[0] as nat)
    } else {
        byte_list(bs.drop_last()) + ", "@ + decimal(bs.last() as nat)
    }
}

/// The bytes as `{:?}` writes a byte slice: `[1, 2, 3]`.
pub open spec fn bytes_debug(bs: Seq<u8>) -> Seq<char> {
    "["@ + byte_list(bs) + "]"@
}

/// The bytes as `{:?}` writes a byte slice.
pub fn bytes_to_debug(data: &Vec<u8>) -> (r: String)
    ensures
        r@ == bytes_debug(data@),
{
    let n = data.len();
    let mut list = String::new();
    let mut i: usize = 0;
    while i < n
        invariant
            i <= n,
            n == data@.len(),
            list@ == byte_list(data@.subrange(0, i as int)),
        decreases n - i,
    {
        let ghost next = data@.subrange(0, i + 1);
        assert(next.drop_last() =~= data@.subrange(0, i as int));
        if i > 0 {
            list.append(", ");
        }
        let d = u64_to_decimal(data[i] as u64);
        list.append(d.as_str());
        assert(list@ =~= byte_list(next));
        i = i + 1;
    }
    assert(data@.subrange(0, n as int) =~= data@);
    concat3("[", list.as_str(), "]")
}

} // verus!
