//! Text helpers shared by the other modules: decimal rendering of integers
//! and whitespace trimming, each with its mathematical meaning.

use vstd::prelude::*;

verus! {

/// The ASCII digit for `d` (meaningful for `d < 10`).
pub open spec fn digit_char(d: nat) -> char {
    (d + 48) as char
}

/// Decimal notation of `n`: most significant digit first, no sign, no
/// padding, no leading zeros (`0` is written as a single `0`).
pub open spec fn decimal(n: nat) -> Seq<char>
    decreases n,
{
    if n < 10 {
        seq![digit_char(n)]
    } else {
        decimal(n / 10).push(digit_char(n % 10))
    }
}

/// Whether `c` is one of the ASCII digits `0`–`9`.
pub open spec fn is_digit(c: char) -> bool {
    48 <= c as int <= 57
}

/// Every character of `s` is an ASCII digit.
pub open spec fn all_digits(s: Seq<char>) -> bool {
    forall|i: int| 0 <= i < s.len() ==> is_digit(#[trigger] s[i])
}

/// The number a string of ASCII digits denotes in base 10.
pub open spec fn digits_value(s: Seq<char>) -> int
    decreases s.len(),
{
    if s.len() == 0 {
        0
    } else {
        digits_value(s.drop_last()) * 10 + (s.last() as int - 48)
    }
}

/// Decimal notation reads back: it is a non-empty string of ASCII digits,
/// without a leading zero unless it is `0` itself, and read in base 10 it
/// gives the number again.
pub proof fn decimal_reads_back(n: nat)
    ensures
        decimal(n).len() > 0,
        all_digits(decimal(n)),
        digits_value(decimal(n)) == n,
        n > 0 ==> decimal(n)[0] != '0',
    decreases n,
{
    assert(digit_char(n % 10) as int == n % 10 + 48);
    if n < 10 {
        assert(decimal(n).drop_last() =~= Seq::<char>::empty());
        assert(digits_value(Seq::<char>::empty()) == 0);
        assert(digits_value(decimal(n)) == n);
    } else {
        decimal_reads_back(n / 10);
        let head = decimal(n / 10);
        let t = decimal(n);
        assert(t =~= head.push(digit_char(n % 10)));
        assert(t.drop_last() =~= head);
        assert forall|i: int| 0 <= i < t.len() implies is_digit(#[trigger] t[i]) by {
            if i < head.len() {
                assert(t[i] == head[i]);
            }
        }
        vstd::arithmetic::div_mod::lemma_fundamental_div_mod(n as int, 10);
        assert(t.last() == digit_char(n % 10));
        assert(digits_value(t) == digits_value(head) * 10 + (n % 10));
        assert(t[0] == head[0]);
    }
}

/// The Unicode `White_Space` property, which is what `char::is_whitespace`
/// and `str::trim` go by.
pub open spec fn is_white_space(c: char) -> bool {
    let x: u32 = c as u32;
    ||| 0x09 <= x <= 0x0d
    ||| x == 0x20
    ||| x == 0x85
    ||| x == 0xa0
    ||| x == 0x1680
    ||| 0x2000 <= x <= 0x200a
    ||| x == 0x2028
    ||| x == 0x2029
    ||| x == 0x202f
    ||| x == 0x205f
    ||| x == 0x3000
}

/// `s` without its leading white space.
pub open spec fn trim_start(s: Seq<char>) -> Seq<char>
    decreases s.len(),
{
    if s.len() > 0 && is_white_space(s[0]) {
        trim_start(s.drop_first())
    } else {
        s
    }
}

/// `s` without its trailing white space.
pub open spec fn trim_end(s: Seq<char>) -> Seq<char>
    decreases s.len(),
{
    if s.len() > 0 && is_white_space(s.last()) {
        trim_end(s.drop_last())
    } else {
        s
    }
}

/// `s` without leading and trailing white space.
pub open spec fn trimmed(s: Seq<char>) -> Seq<char> {
    trim_end(trim_start(s))
}

/// Once leading white space is gone, what is left is empty or starts with
/// a character that is not white space.
pub proof fn lemma_trim_start_front(s: Seq<char>)
    ensures
        trim_start(s).len() == 0 || !is_white_space(trim_start(s)[0]),
    decreases s.len(),
{
    if s.len() > 0 && is_white_space(s[0]) {
        lemma_trim_start_front(s.drop_first());
    }
}

/// Once trailing white space is gone, what is left is empty or ends with a
/// character that is not white space, and it starts where `s` starts.
pub proof fn lemma_trim_end_back(s: Seq<char>)
    ensures
        trim_end(s).len() == 0 || !is_white_space(trim_end(s).last()),
        trim_end(s).len() > 0 ==> trim_end(s)[0] == s[0],
    decreases s.len(),
{
    if s.len() > 0 && is_white_space(s.last()) {
        lemma_trim_end_back(s.drop_last());
    }
}

/// Trimming twice is trimming once.
pub proof fn lemma_trimmed_idempotent(s: Seq<char>)
    ensures
        trimmed(trimmed(s)) == trimmed(s),
{
    let t = trimmed(s);
    lemma_trim_start_front(s);
    lemma_trim_end_back(trim_start(s));
    assert(trim_start(t) == t);
    assert(trim_end(t) == t);
}

/// Leading white space is removed up to the first character that is not
/// white space.
proof fn lemma_trim_start_cut(s: Seq<char>)
    ensures
        exists|i: int|
            0 <= i <= s.len() && trim_start(s) == s.subrange(i, s.len() as int) && (forall|k: int|
                0 <= k < i ==> is_white_space(#[trigger] s[k])) && (i == s.len() || !is_white_space(
                s[i],
            )),
    decreases s.len(),
{
    if s.len() > 0 && is_white_space(s[0]) {
        let rest = s.drop_first();
        lemma_trim_start_cut(rest);
        let i = choose|i: int|
            0 <= i <= rest.len() && trim_start(rest) == rest.subrange(i, rest.len() as int) && (forall|
                k: int,
            | 0 <= k < i ==> is_white_space(#[trigger] rest[k])) && (i == rest.len()
                || !is_white_space(rest[i]));
        assert(rest.subrange(i, rest.len() as int) =~= s.subrange(i + 1, s.len() as int));
        assert forall|k: int| 0 <= k < i + 1 implies is_white_space(#[trigger] s[k]) by {
            if k > 0 {
                assert(s[k] == rest[k - 1]);
            }
        }
        if i < rest.len() {
            assert(s[i + 1] == rest[i]);
        }
    } else {
        assert(s.subrange(0, s.len() as int) =~= s);
    }
}

/// Trailing white space is removed back to the last character that is not
/// white space.
proof fn lemma_trim_end_cut(u: Seq<char>)
    ensures
        exists|m: int|
            0 <= m <= u.len() && trim_end(u) == u.subrange(0, m) && (forall|k: int|
                m <= k < u.len() ==> is_white_space(#[trigger] u[k])) && (m == 0 || !is_white_space(
                u[m - 1],
            )),
    decreases u.len(),
{
    if u.len() > 0 && is_white_space(u.last()) {
        let rest = u.drop_last();
        lemma_trim_end_cut(rest);
        let m = choose|m: int|
            0 <= m <= rest.len() && trim_end(rest) == rest.subrange(0, m) && (forall|k: int|
                m <= k < rest.len() ==> is_white_space(#[trigger] rest[k])) && (m == 0
                || !is_white_space(rest[m - 1]));
        assert(rest.subrange(0, m) =~= u.subrange(0, m));
        assert forall|k: int| m <= k < u.len() implies is_white_space(#[trigger] u[k]) by {
            if k < u.len() - 1 {
                assert(u[k] == rest[k]);
            }
        }
        if m > 0 {
            assert(u[m - 1] == rest[m - 1]);
        }
    } else {
        assert(u.subrange(0, u.len() as int) =~= u);
    }
}

/// Trimming keeps one contiguous part of the string: everything cut off
/// before and after it is white space, and the part kept neither starts nor
/// ends with white space.
pub proof fn trimmed_keeps_core(s: Seq<char>)
    ensures
        exists|i: int, j: int|
            0 <= i <= j <= s.len() && trimmed(s) == s.subrange(i, j) && (forall|k: int|
                0 <= k < i ==> is_white_space(#[trigger] s[k])) && (forall|k: int|
                j <= k < s.len() ==> is_white_space(#[trigger] s[k])) && (i < j ==> !is_white_space(
                s[i]) && !is_white_space(s[j - 1])),
{
    lemma_trim_start_cut(s);
    let i = choose|i: int|
        0 <= i <= s.len() && trim_start(s) == s.subrange(i, s.len() as int) && (forall|k: int|
            0 <= k < i ==> is_white_space(#[trigger] s[k])) && (i == s.len() || !is_white_space(s[i]));
    let u = s.subrange(i, s.len() as int);
    lemma_trim_end_cut(u);
    let m = choose|m: int|
        0 <= m <= u.len() && trim_end(u) == u.subrange(0, m) && (forall|k: int|
            m <= k < u.len() ==> is_white_space(#[trigger] u[k])) && (m == 0 || !is_white_space(
            u[m - 1],
        ));
    assert(u.subrange(0, m) =~= s.subrange(i, i + m));
    assert forall|k: int| i + m <= k < s.len() implies is_white_space(#[trigger] s[k]) by {
        assert(s[k] == u[k - i]);
    }
    if m > 0 {
        assert(s[i + m - 1] == u[m - 1]);
    }
    assert(trimmed(s) == s.subrange(i, i + m));
}

/// The ASCII digit `d` as a one-character string.
fn digit_text(d: u64) -> (t: &'static str)
    requires
        d < 10,
    ensures
        t@ == seq![digit_char(d as nat)],
{
    proof {
        reveal_strlit("0");
        reveal_strlit("1");
        reveal_strlit("2");
        reveal_strlit("3");
        reveal_strlit("4");
        reveal_strlit("5");
        reveal_strlit("6");
        reveal_strlit("7");
        reveal_strlit("8");
        reveal_strlit("9");
    }
    match d {
        0 => "0",
        1 => "1",
        2 => "2",
        3 => "3",
        4 => "4",
        5 => "5",
        6 => "6",
        7 => "7",
        8 => "8",
        _ => "9",
    }
}

/// The decimal notation of `n`, as `u64`'s `to_string` writes it.
pub(crate) fn decimal_text(n: u64) -> (s: String)
    ensures
        s@ == decimal(n as nat),
    decreases n,
{
    if n < 10 {
        String::from_str(digit_text(n))
    } else {
        let mut s = decimal_text(n / 10);
        s.append(digit_text(n % 10));
        s
    }
}

/// Whether `c` has the Unicode `White_Space` property.
fn is_white_space_char(c: char) -> (r: bool)
    ensures
        r == is_white_space(c),
{
    let x: u32 = c as u32;
    (0x09 <= x && x <= 0x0d) || x == 0x20 || x == 0x85 || x == 0xa0 || x == 0x1680 || (0x2000 <= x
        && x <= 0x200a) || x == 0x2028 || x == 0x2029 || x == 0x202f || x == 0x205f || x == 0x3000
}

/// Removing leading white space from `s` leaves the part from the first
/// character that is not white space.
proof fn lemma_trim_start_from(s: Seq<char>, i: int)
    requires
        0 <= i <= s.len(),
        forall|k: int| 0 <= k < i ==> is_white_space(#[trigger] s[k]),
        i == s.len() || !is_white_space(s[i]),
    ensures
        trim_start(s) =~= s.subrange(i, s.len() as int),
    decreases i,
{
    if i > 0 {
        let rest = s.drop_first();
        assert forall|k: int| 0 <= k < i - 1 implies is_white_space(#[trigger] rest[k]) by {
            assert(rest[k] == s[k + 1]);
        }
        lemma_trim_start_from(rest, i - 1);
        assert(rest.subrange(i - 1, rest.len() as int) =~= s.subrange(i, s.len() as int));
    }
}

/// Removing trailing white space from `u` leaves the part up to the last
/// character that is not white space.
proof fn lemma_trim_end_to(u: Seq<char>, m: int)
    requires
        0 <= m <= u.len(),
        forall|k: int| m <= k < u.len() ==> is_white_space(#[trigger] u[k]),
        m == 0 || !is_white_space(u[m - 1]),
    ensures
        trim_end(u) =~= u.subrange(0, m),
    decreases u.len() - m,
{
    if m < u.len() {
        let rest = u.drop_last();
        assert(is_white_space(u[u.len() - 1]));
        assert forall|k: int| m <= k < rest.len() implies is_white_space(#[trigger] rest[k]) by {
            assert(rest[k] == u[k]);
        }
        lemma_trim_end_to(rest, m);
        assert(rest.subrange(0, m) =~= u.subrange(0, m));
    }
}

/// `s` without leading and trailing white space, as `str::trim` gives it.
pub(crate) fn trim_text(s: &str) -> (t: &str)
    ensures
        t@ == trimmed(s@),
{
    let n: usize = s.unicode_len();
    let mut i: usize = 0;
    while i < n && is_white_space_char(s.get_char(i))
        invariant
            i <= n,
            n == s@.len(),
            forall|k: int| 0 <= k < i ==> is_white_space(#[trigger] s@[k]),
        decreases n - i,
    {
        i = i + 1;
    }
    let mut j: usize = n;
    while j > i && is_white_space_char(s.get_char(j - 1))
        invariant
            i <= j <= n,
            n == s@.len(),
            forall|k: int| j <= k < n ==> is_white_space(#[trigger] s@[k]),
        decreases j,
    {
        j = j - 1;
    }
    proof {
        lemma_trim_start_from(s@, i as int);
        let u = s@.subrange(i as int, n as int);
        assert forall|k: int| j - i <= k < u.len() implies is_white_space(#[trigger] u[k]) by {
            assert(u[k] == s@[k + i]);
        }
        if j > i {
            assert(u[j - i - 1] == s@[j - 1]);
        }
        lemma_trim_end_to(u, j - i);
        assert(u.subrange(0, j - i) =~= s@.subrange(i as int, j as int));
    }
    s.substring_char(i, j)
}

/// Whether two strings hold the same characters.
pub(crate) fn same_text(a: &str, b: &str) -> (r: bool)
    ensures
        r == (a@ == b@),
{
    a.to_owned() == b.to_owned()
}

} // verus!
