//! Character-level helpers on string slices.
use vstd::prelude::*;

verus! {

/// Whether two strings hold the same characters.
pub fn str_eq(a: &str, b: &str) -> (r: bool)
    ensures
        r == (a@ == b@),
{
    let n = a.unicode_len();
    if n != b.unicode_len() {
        return false;
    }
    let mut i: usize = 0;
    while i < n
        invariant
            n == a@.len(),
            n == b@.len(),
            i <= n,
            forall|j: int| 0 <= j < i ==> a@[j] == b@[j],
        decreases n - i,
    {
        if a.get_char(i) != b.get_char(i) {
            return false;
        }
        i += 1;
    }
    assert(a@ =~= b@);
    true
}

/// Whether a character separates the items of an XML whitespace-separated list.
pub open spec fn is_space(c: char) -> bool {
    c == ' ' || c == '\t' || c == '\n' || c == '\r'
}

/// Reading the first `n` characters of `s`: the tokens completed so far and
/// the token being read.
pub open spec fn split_state(s: Seq<char>, n: int) -> (Seq<Seq<char>>, Seq<char>)
    decreases n,
{
    if n <= 0 {
        (Seq::empty(), Seq::empty())
    } else {
        let (done, cur) = split_state(s, n - 1);
        if is_space(s[n - 1]) {
            if cur.len() > 0 {
                (done.push(cur), Seq::empty())
            } else {
                (done, cur)
            }
        } else {
            (done, cur.push(s[n - 1]))
        }
    }
}

/// The whitespace-separated tokens of `s`, in order.
pub open spec fn tokens(s: Seq<char>) -> Seq<Seq<char>> {
    let (done, cur) = split_state(s, s.len() as int);
    if cur.len() > 0 {
        done.push(cur)
    } else {
        done
    }
}

/// The characters of each string of `v`.
pub open spec fn string_views(v: Seq<String>) -> Seq<Seq<char>> {
    v.map_values(|t: String| t@)
}

/// Splits a whitespace-separated list into its tokens.
pub fn split_tokens(s: &str) -> (r: Vec<String>)
    ensures
        string_views(r@) == tokens(s@),
{
    let n = s.unicode_len();
    let mut out: Vec<String> = Vec::new();
    let mut start: usize = 0;
    let mut i: usize = 0;
    while i < n
        invariant
            n == s@.len(),
            start <= i <= n,
            split_state(s@, i as int) == (string_views(out@), s@.subrange(start as int, i as int)),
        decreases n - i,
    {
        let c = s.get_char(i);
        if c == ' ' || c == '\t' || c == '\n' || c == '\r' {
            if start < i {
                let t = s.substring_char(start, i).to_owned();
                let ghost before = out@;
                out.push(t);
                assert(string_views(out@) =~= string_views(before).push(t@));
            }
            start = i + 1;
        } else {
            assert(s@.subrange(start as int, i + 1) =~= s@.subrange(start as int, i as int).push(c));
        }
        i += 1;
    }
    if start < n {
        let t = s.substring_char(start, n).to_owned();
        out.push(t);
    }
    out
}

/// Whether `c` is a decimal digit.
pub open spec fn is_digit(c: char) -> bool {
    '0' <= c && c <= '9'
}

/// The value of the decimal digit `c`.
pub open spec fn digit_value(c: char) -> int {
    (c as u32) as int - ('0' as u32) as int
}

/// The number written in decimal by the digits `s`.
pub open spec fn digits_value(s: Seq<char>) -> int
    decreases s.len(),
{
    if s.len() == 0 {
        0
    } else {
        digits_value(s.drop_last()) * 10 + digit_value(s.last())
    }
}

/// Whether `s` is the decimal form of a non-negative integer.
pub open spec fn is_decimal(s: Seq<char>) -> bool {
    s.len() > 0 && forall|i: int| 0 <= i < s.len() ==> is_digit(#[trigger] s[i])
}

proof fn lemma_digits_value_grows(s: Seq<char>, i: int)
    requires
        forall|k: int| 0 <= k < s.len() ==> is_digit(#[trigger] s[k]),
        0 <= i <= s.len(),
    ensures
        0 <= digits_value(s.take(i)) <= digits_value(s),
    decreases s.len(),
{
    if s.len() > 0 {
        let init = s.drop_last();
        if i < s.len() {
            assert(init.take(i) =~= s.take(i));
            lemma_digits_value_grows(init, i);
        } else {
            assert(s.take(i) =~= s);
            lemma_digits_value_grows(init, init.len() as int);
            assert(init.take(init.len() as int) =~= init);
        }
    }
}

/// Reads a non-negative decimal integer; `None` where `s` is not one or the
/// value does not fit in `usize`.
pub fn parse_count(s: &str) -> (r: Option<usize>)
    ensures
        r == (if is_decimal(s@) && digits_value(s@) <= usize::MAX {
            Some(digits_value(s@) as usize)
        } else {
            None
        }),
{
    let n = s.unicode_len();
    if n == 0 {
        return None;
    }
    let mut acc: usize = 0;
    let mut i: usize = 0;
    while i < n
        invariant
            n == s@.len(),
            i <= n,
            forall|k: int| 0 <= k < i ==> is_digit(#[trigger] s@[k]),
            acc as int == digits_value(s@.take(i as int)),
        decreases n - i,
    {
        let c = s.get_char(i);
        if c < '0' || c > '9' {
            return None;
        }
        let d = (c as u32 - '0' as u32) as usize;
        assert(s@.take(i + 1).drop_last() =~= s@.take(i as int));
        let next = match acc.checked_mul(10) {
            Some(m) => m.checked_add(d),
            None => None,
        };
        match next {
            Some(v) => {
                acc = v;
            },
            None => {
                proof {
                    if is_decimal(s@) {
                        lemma_digits_value_grows(s@, i + 1);
                    }
                }
                return None;
            },
        }
        i += 1;
    }
    assert(s@.take(n as int) =~= s@);
    Some(acc)
}

} // verus!
