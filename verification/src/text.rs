//! Decimal rendering and small string-building helpers shared by every label.

use vstd::prelude::*;
use vstd::string::StringSliceAdditionalSpecFns;

verus! {

/// The character for one decimal digit.
pub open spec fn digit_char(d: nat) -> char {
    if d == 0 {
        '0'
    } else if d == 1 {
        '1'
    } else if d == 2 {
        '2'
    } else if d == 3 {
        '3'
    } else if d == 4 {
        '4'
    } else if d == 5 {
        '5'
    } else if d == 6 {
        '6'
    } else if d == 7 {
        '7'
    } else if d == 8 {
        '8'
    } else {
        '9'
    }
}

/// The shortest base-ten rendering of `n`, most significant digit first.
pub open spec fn decimal(n: nat) -> Seq<char>
    decreases n,
{
    if n < 10 {
        seq![digit_char(n)]
    } else {
        decimal(n / 10).push(digit_char(n % 10))
    }
}

fn digit_str(d: u64) -> (r: &'static str)
    requires
        d < 10,
    ensures
        r@ == seq![digit_char(d as nat)],
{
    proof {
        reveal_strlit("0");
        reveal_strlit("1");
        reveal_strlit("2");
        reveal_strlit("3");
        reveal_strlit("4");
        reveal_strlit("5");
        reveal_strlit("6");
        reveal_strlit("7");
        reveal_strlit("8");
        reveal_strlit("9");
    }
    if d == 0 {
        "0"
    } else if d == 1 {
        "1"
    } else if d == 2 {
        "2"
    } else if d == 3 {
        "3"
    } else if d == 4 {
        "4"
    } else if d == 5 {
        "5"
    } else if d == 6 {
        "6"
    } else if d == 7 {
        "7"
    } else if d == 8 {
        "8"
    } else {
        "9"
    }
}

/// Appends the decimal rendering of `n`.
pub fn push_decimal(s: &mut String, n: u64)
    ensures
        final(s)@ == old(s)@ + decimal(n as nat),
    decreases n,
{
    if n >= 10 {
        push_decimal(s, n / 10);
    }
    s.append(digit_str(n % 10));
    assert(decimal(n as nat) =~= if n < 10 {
        seq![digit_char(n as nat)]
    } else {
        decimal((n / 10) as nat).push(digit_char((n % 10) as nat))
    });
}

/// A decimal rendering holds digits only, at least one.
pub proof fn lemma_decimal_digits(n: nat)
    ensures
        decimal(n).len() >= 1,
        n >= 10 ==> decimal(n).len() >= 2,
        forall|k: int| 0 <= k < decimal(n).len() ==> #[trigger] decimal(n)[k] != ':',
    decreases n,
{
    if n >= 10 {
        lemma_decimal_digits(n / 10);
        let d = decimal(n / 10);
        assert forall|k: int| 0 <= k < decimal(n).len() implies #[trigger] decimal(n)[k] != ':' by {
            if k < d.len() {
                assert(decimal(n)[k] == d[k]);
            }
        }
    }
}

proof fn lemma_digit_char_injective(x: nat, y: nat)
    requires
        x < 10,
        y < 10,
        digit_char(x) == digit_char(y),
    ensures
        x == y,
{
}

/// Different numbers have different decimal renderings.
pub proof fn lemma_decimal_injective(a: nat, b: nat)
    requires
        decimal(a) == decimal(b),
    ensures
        a == b,
    decreases a,
{
    lemma_decimal_digits(a);
    lemma_decimal_digits(b);
    if a >= 10 && b >= 10 {
        assert(decimal(a).drop_last() =~= decimal(a / 10));
        assert(decimal(b).drop_last() =~= decimal(b / 10));
        lemma_decimal_injective(a / 10, b / 10);
        assert(decimal(a) == decimal(a / 10).push(digit_char(a % 10)));
        assert(decimal(b) == decimal(b / 10).push(digit_char(b % 10)));
        assert(decimal(a).last() == decimal(b).last());
        assert(digit_char(a % 10) == decimal(a).last());
        assert(digit_char(b % 10) == decimal(b).last());
        lemma_digit_char_injective(a % 10, b % 10);
        assert(a == 10 * (a / 10) + a % 10);
        assert(b == 10 * (b / 10) + b % 10);
    } else if a < 10 && b < 10 {
        assert(decimal(a) == seq![digit_char(a)]);
        assert(decimal(b) == seq![digit_char(b)]);
        assert(decimal(a)[0] == decimal(b)[0]);
        assert(digit_char(a) == decimal(a)[0]);
        assert(digit_char(b) == decimal(b)[0]);
        lemma_digit_char_injective(a, b);
    }
}

proof fn lemma_utf8_len_concat(a: Seq<char>, b: Seq<char>)
    ensures
        vstd::utf8::encode_utf8(a + b).len() == vstd::utf8::encode_utf8(a).len() + vstd::utf8::encode_utf8(b).len(),
        b.len() > 0 ==> vstd::utf8::encode_utf8(b).len() > 0,
    decreases a.len(),
{
    if a.len() > 0 {
        assert((a + b).drop_first() =~= a.drop_first() + b);
        assert((a + b)[0] == a[0]);
        lemma_utf8_len_concat(a.drop_first(), b);
    }
}

/// A length-prefixed pair of identities is recoverable: when the byte length
/// of the first identity, a colon, and then both identities follow a common
/// prefix, equal results come only from equal pairs.
pub proof fn lemma_length_prefixed_injective(prefix: Seq<char>, t1: &str, i1: Seq<char>, t2: &str, i2: Seq<char>)
    requires
        t1.spec_bytes().len() <= usize::MAX,
        t2.spec_bytes().len() <= usize::MAX,
        prefix + decimal(t1.len() as nat) + ":"@ + t1@ + i1 == prefix + decimal(t2.len() as nat) + ":"@ + t2@ + i2,
    ensures
        t1@ == t2@,
        i1 == i2,
{
    reveal_strlit(":");
    let d1 = decimal(t1.len() as nat);
    let d2 = decimal(t2.len() as nat);
    let r1 = d1 + ":"@ + (t1@ + i1);
    let r2 = d2 + ":"@ + (t2@ + i2);
    assert(prefix + decimal(t1.len() as nat) + ":"@ + t1@ + i1 =~= prefix + r1);
    assert(prefix + decimal(t2.len() as nat) + ":"@ + t2@ + i2 =~= prefix + r2);
    assert(r1 =~= (prefix + r1).subrange(prefix.len() as int, (prefix + r1).len() as int));
    assert(r2 =~= (prefix + r2).subrange(prefix.len() as int, (prefix + r2).len() as int));
    assert(r1 == r2);
    lemma_decimal_digits(t1.len() as nat);
    lemma_decimal_digits(t2.len() as nat);
    if d1.len() < d2.len() {
        assert(r1[d1.len() as int] == ':');
        assert(r2[d1.len() as int] == d2[d1.len() as int]);
    } else if d2.len() < d1.len() {
        assert(r2[d2.len() as int] == ':');
        assert(r1[d2.len() as int] == d1[d2.len() as int]);
    }
    assert(d1 =~= r1.subrange(0, d1.len() as int));
    assert(d2 =~= r2.subrange(0, d2.len() as int));
    lemma_decimal_injective(t1.len() as nat, t2.len() as nat);
    let c = t1@ + i1;
    assert(c =~= r1.subrange(d1.len() as int + 1, r1.len() as int));
    assert(t2@ + i2 =~= r2.subrange(d2.len() as int + 1, r2.len() as int));
    assert(c == t2@ + i2);
    assert(t1@ =~= c.subrange(0, t1@.len() as int));
    assert(t2@ =~= (t2@ + i2).subrange(0, t2@.len() as int));
    if t1@.len() < t2@.len() {
        let extra = c.subrange(t1@.len() as int, t2@.len() as int);
        assert(t2@ =~= t1@ + extra);
        lemma_utf8_len_concat(t1@, extra);
    } else if t2@.len() < t1@.len() {
        let extra = c.subrange(t2@.len() as int, t1@.len() as int);
        assert(t1@ =~= t2@ + extra);
        lemma_utf8_len_concat(t2@, extra);
    }
    assert(i1 =~= c.subrange(t1@.len() as int, c.len() as int));
    assert(i2 =~= c.subrange(t2@.len() as int, c.len() as int));
}

/// Appends a quantity given in tenths with one decimal place: `14` reads `1.4`.
pub fn push_tenths(s: &mut String, tenths: u64)
    ensures
        final(s)@ == old(s)@ + decimal((tenths / 10) as nat) + "."@ + seq![digit_char((tenths % 10) as nat)],
{
    push_decimal(s, tenths / 10);
    s.append(".");
    s.append(digit_str(tenths % 10));
}

/// The characters of a string slice, in order.
pub fn chars_of(s: &str) -> (r: Vec<char>)
    ensures
        r@ == s@,
{
    let n = s.unicode_len();
    let mut r: Vec<char> = Vec::new();
    let mut i: usize = 0;
    while i < n
        invariant
            n == s@.len(),
            i <= n,
            r@ == s@.take(i as int),
        decreases n - i,
    {
        r.push(s.get_char(i));
        assert(r@ =~= s@.take(i + 1));
        i = i + 1;
    }
    assert(s@.take(n as int) =~= s@);
    r
}

/// ASCII upper-case letters mapped to lower case; every other character
/// unchanged.
pub open spec fn ascii_lower(c: char) -> char {
    if 'A' <= c && c <= 'Z' {
        ((c as u32) + 32) as char
    } else {
        c
    }
}

/// A character sequence with ASCII letters in lower case.
pub open spec fn ascii_lower_seq(s: Seq<char>) -> Seq<char> {
    s.map_values(|c: char| ascii_lower(c))
}

/// Whether `a`, with ASCII letters in lower case, is `b`.
fn eq_ascii_lower(a: char, b: char) -> (r: bool)
    ensures
        r == (ascii_lower(a) == b),
{
    if 'A' <= a && a <= 'Z' {
        (a as u32) + 32 == (b as u32)
    } else {
        a == b
    }
}

/// Whether the characters of `s` from `start` on, with ASCII letters in
/// lower case, spell `lit`.
pub fn tail_matches_lower(s: &Vec<char>, start: usize, lit: &str) -> (r: bool)
    requires
        start <= s@.len(),
    ensures
        r == (ascii_lower_seq(s@.subrange(start as int, s@.len() as int)) == lit@),
{
    let n = lit.unicode_len();
    let ghost tail = ascii_lower_seq(s@.subrange(start as int, s@.len() as int));
    let end = s.len();
    if end - start != n {
        assert(tail.len() != lit@.len());
        return false;
    }
    let mut i: usize = 0;
    while i < n
        invariant
            n == lit@.len(),
            start <= s@.len(),
            s@.len() - start == n,
            end == s@.len(),
            tail == ascii_lower_seq(s@.subrange(start as int, s@.len() as int)),
            i <= n,
            forall|k: int| 0 <= k < i ==> tail[k] == lit@[k],
        decreases n - i,
    {
        if !eq_ascii_lower(s[start + i], lit.get_char(i)) {
            assert(tail[i as int] != lit@[i as int]);
            return false;
        }
        i = i + 1;
    }
    assert(tail =~= lit@);
    true
}

/// Whether a character has the Unicode `White_Space` property.
pub open spec fn is_white_space(c: char) -> bool {
    let u = c as u32;
    (0x9 <= u && u <= 0xd) || u == 0x20 || u == 0x85 || u == 0xa0 || u == 0x1680 || (0x2000 <= u && u
        <= 0x200a) || u == 0x2028 || u == 0x2029 || u == 0x202f || u == 0x205f || u == 0x3000
}

/// Whether a character has the Unicode `White_Space` property.
pub fn white_space(c: char) -> (r: bool)
    ensures
        r == is_white_space(c),
{
    let u = c as u32;
    (0x9 <= u && u <= 0xd) || u == 0x20 || u == 0x85 || u == 0xa0 || u == 0x1680 || (0x2000 <= u && u
        <= 0x200a) || u == 0x2028 || u == 0x2029 || u == 0x202f || u == 0x205f || u == 0x3000
}

/// A character sequence without its leading white space.
pub open spec fn trim_start_spec(s: Seq<char>) -> Seq<char>
    decreases s.len(),
{
    if s.len() > 0 && is_white_space(s[0]) {
        trim_start_spec(s.drop_first())
    } else {
        s
    }
}

/// A character sequence without its trailing white space.
pub open spec fn trim_end_spec(s: Seq<char>) -> Seq<char>
    decreases s.len(),
{
    if s.len() > 0 && is_white_space(s.last()) {
        trim_end_spec(s.drop_last())
    } else {
        s
    }
}

/// A character sequence without leading or trailing white space.
pub open spec fn trim_spec(s: Seq<char>) -> Seq<char> {
    trim_end_spec(trim_start_spec(s))
}

proof fn lemma_trim_start(s: Seq<char>, i: int)
    requires
        0 <= i <= s.len(),
        forall|k: int| 0 <= k < i ==> is_white_space(s[k]),
    ensures
        trim_start_spec(s) == trim_start_spec(s.subrange(i, s.len() as int)),
    decreases i,
{
    if i == 0 {
        assert(s.subrange(0, s.len() as int) =~= s);
    } else {
        let d = s.drop_first();
        assert forall|k: int| 0 <= k < i - 1 implies is_white_space(d[k]) by {
            assert(d[k] == s[k + 1]);
        }
        lemma_trim_start(d, i - 1);
        assert(d.subrange(i - 1, d.len() as int) =~= s.subrange(i, s.len() as int));
    }
}

proof fn lemma_trim_end(t: Seq<char>, j: int)
    requires
        0 <= j <= t.len(),
        forall|k: int| j <= k < t.len() ==> is_white_space(t[k]),
    ensures
        trim_end_spec(t) == trim_end_spec(t.subrange(0, j)),
    decreases t.len() - j,
{
    if j == t.len() {
        assert(t.subrange(0, j) =~= t);
    } else {
        let d = t.drop_last();
        assert forall|k: int| j <= k < d.len() implies is_white_space(d[k]) by {
            assert(d[k] == t[k]);
        }
        lemma_trim_end(d, j);
        assert(d.subrange(0, j) =~= t.subrange(0, j));
    }
}

/// The text without leading or trailing white space.
pub fn trim_white_space(s: &str) -> (r: String)
    ensures
        r@ == trim_spec(s@),
{
    let chars = chars_of(s);
    let n = chars.len();
    let mut i: usize = 0;
    while i < n && white_space(chars[i])
        invariant
            n == chars@.len(),
            chars@ == s@,
            i <= n,
            forall|k: int| 0 <= k < i ==> is_white_space(chars@[k]),
        decreases n - i,
    {
        i = i + 1;
    }
    proof {
        lemma_trim_start(s@, i as int);
    }
    let ghost t = s@.subrange(i as int, n as int);
    assert(trim_start_spec(t) == t);
    let mut j: usize = n;
    while j > i && white_space(chars[j - 1])
        invariant
            n == chars@.len(),
            chars@ == s@,
            i <= j <= n,
            t == s@.subrange(i as int, n as int),
            forall|k: int| j <= k < n ==> is_white_space(chars@[k]),
        decreases j - i,
    {
        j = j - 1;
    }
    proof {
        assert forall|k: int| j - i <= k < t.len() implies is_white_space(t[k]) by {
            assert(t[k] == chars@[k + i]);
        }
        lemma_trim_end(t, j - i);
        assert(t.subrange(0, j - i) =~= s@.subrange(i as int, j as int));
        let u = s@.subrange(i as int, j as int);
        if u.len() > 0 {
            assert(u.last() == chars@[j - 1]);
        }
        assert(trim_end_spec(u) == u);
    }
    s.substring_char(i, j).to_owned()
}

} // verus!
