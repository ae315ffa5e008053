//! Text building blocks: decimal numbers and trimming.

use vstd::prelude::*;
use vstd::string::*;

use crate::mcp_client::{count_value, digits_value};

verus! {

/// `String::push` appends one character.
pub assume_specification[ String::push ](s: &mut String, c: char)
    ensures
        final(s)@ == old(s)@.push(c),
;

/// Whether two strings hold the same characters.
pub fn same_text(a: &str, b: &str) -> (res: bool)
    ensures
        res == (a@ == b@),
{
    a.to_owned() == b.to_owned()
}

/// The decimal digit for a number below ten.
pub open spec fn digit_char(d: nat) -> char {
    (48 + d) as char
}

/// The decimal notation of a natural number, without leading zeros.
pub open spec fn decimal(n: nat) -> Seq<char>
    decreases n,
{
    if n < 10 {
        seq![digit_char(n)]
    } else {
        decimal(n / 10).push(digit_char(n % 10))
    }
}

/// Appends the decimal notation of `n`.
pub fn push_decimal(out: &mut String, n: u64)
    ensures
        final(out)@ == old(out)@ + decimal(n as nat),
    decreases n,
{
    if n >= 10 {
        push_decimal(out, n / 10);
    }
    let d: u8 = (n % 10) as u8;
    out.push((48 + d) as char);
}

/// The decimal notation of `n`.
pub fn decimal_text(n: u64) -> (res: String)
    ensures
        res@ == decimal(n as nat),
{
    let mut out = String::new();
    push_decimal(&mut out, n);
    out
}

/// The characters with the Unicode property White_Space.
pub open spec fn white_space(c: char) -> bool {
    ||| '\u{9}' <= c <= '\u{d}'
    ||| c == ' '
    ||| c == '\u{85}'
    ||| c == '\u{a0}'
    ||| c == '\u{1680}'
    ||| '\u{2000}' <= c <= '\u{200a}'
    ||| c == '\u{2028}'
    ||| c == '\u{2029}'
    ||| c == '\u{202f}'
    ||| c == '\u{205f}'
    ||| c == '\u{3000}'
}

/// Whether `c` is white space.
pub fn is_white_space(c: char) -> (res: bool)
    ensures
        res == white_space(c),
{
    ('\u{9}' <= c && c <= '\u{d}') || c == ' ' || c == '\u{85}' || c == '\u{a0}' || c == '\u{1680}'
        || ('\u{2000}' <= c && c <= '\u{200a}') || c == '\u{2028}' || c == '\u{2029}' || c
        == '\u{202f}' || c == '\u{205f}' || c == '\u{3000}'
}

/// `s` without the white space at its two ends.
pub open spec fn trimmed(s: Seq<char>) -> Seq<char>
    decreases s.len(),
{
    if s.len() == 0 {
        s
    } else if white_space(s.first()) {
        trimmed(s.drop_first())
    } else if white_space(s.last()) {
        trimmed(s.drop_last())
    } else {
        s
    }
}

/// A copy of `s` without the white space at its two ends.
pub fn trim(s: &str) -> (res: String)
    ensures
        res@ == trimmed(s@),
{
    let n: usize = s.unicode_len();
    let mut start: usize = 0;
    assert(s@.subrange(0, n as int) =~= s@);
    while start < n && is_white_space(s.get_char(start))
        invariant
            start <= n == s@.len(),
            trimmed(s@.subrange(start as int, n as int)) == trimmed(s@),
        decreases n - start,
    {
        assert(s@.subrange(start as int, n as int).drop_first() =~= s@.subrange(
            start + 1,
            n as int,
        ));
        start = start + 1;
    }
    let mut end: usize = n;
    while start < end && is_white_space(s.get_char(end - 1))
        invariant
            start <= end <= n == s@.len(),
            trimmed(s@.subrange(start as int, end as int)) == trimmed(s@),
            start < n ==> !white_space(s@[start as int]),
        decreases end,
    {
        assert(s@.subrange(start as int, end as int).drop_last() =~= s@.subrange(
            start as int,
            end - 1,
        ));
        end = end - 1;
    }
    s.substring_char(start, end).to_owned()
}

/// The digits of a written number: what is read back from them is the number, all of them are
/// decimal digits, and the first is no zero but for zero itself.
pub proof fn written_number_is_read_back(n: nat, i: int)
    ensures
        digits_value(decimal(n)) == n,
        decimal(n).len() > 0,
        0 <= i < decimal(n).len() ==> '0' <= decimal(n)[i] <= '9',
        n > 0 ==> decimal(n)[0] != '0',
        n == 0 ==> decimal(n) == "0"@,
        n <= u64::MAX ==> count_value(decimal(n)) == Some(n as u64),
{
    digits_are_digits(n);
    if n == 0 {
        reveal_strlit("0");
        assert(decimal(0) =~= "0"@);
    }
}

/// The digits of a written number.
proof fn digits_are_digits(n: nat)
    ensures
        digits_value(decimal(n)) == n,
        decimal(n).len() > 0,
        forall|i: int| 0 <= i < decimal(n).len() ==> '0' <= #[trigger] decimal(n)[i] <= '9',
        n > 0 ==> decimal(n)[0] != '0',
    decreases n,
{
    reveal_with_fuel(digits_value, 2);
    if n < 10 {
        assert(decimal(n) =~= seq![digit_char(n)]);
        assert(decimal(n).drop_last() =~= Seq::empty());
    } else {
        digits_are_digits(n / 10);
        assert(decimal(n).drop_last() =~= decimal(n / 10));
    }
}

/// Two numbers that are written alike are the same.
pub proof fn numbers_are_told_apart(m: nat, n: nat)
    ensures
        decimal(m) == decimal(n) <==> m == n,
{
    digits_are_digits(m);
    digits_are_digits(n);
}

/// The white space is that of ASCII and Unicode, by its code points.
pub proof fn white_space_by_code_point(c: char)
    ensures
        white_space(c) <==> {
            let u = c as u32;
            ||| 9 <= u <= 13 || u == 32
            ||| u == 0x85 || u == 0xa0 || u == 0x1680
            ||| 0x2000 <= u <= 0x200a
            ||| u == 0x2028 || u == 0x2029 || u == 0x202f || u == 0x205f || u == 0x3000
        },
{
}

/// Trimming takes off white space at the two ends, all of it, and nothing else.
pub proof fn trimming_keeps_what_stands_between(s: Seq<char>) -> (ends: (int, int))
    ensures
        0 <= ends.0 <= ends.1 <= s.len(),
        trimmed(s) == s.subrange(ends.0, ends.1),
        forall|i: int| 0 <= i < ends.0 ==> white_space(#[trigger] s[i]),
        forall|i: int| ends.1 <= i < s.len() ==> white_space(#[trigger] s[i]),
        ends.0 < ends.1 ==> !white_space(s[ends.0]) && !white_space(s[ends.1 - 1]),
    decreases s.len(),
{
    if s.len() == 0 {
        assert(trimmed(s) =~= s.subrange(0, 0));
        (0, 0)
    } else if white_space(s.first()) {
        let t = s.drop_first();
        let (p, q) = trimming_keeps_what_stands_between(t);
        assert(t.subrange(p, q) =~= s.subrange(p + 1, q + 1));
        assert forall|i: int| 0 <= i < p + 1 implies white_space(#[trigger] s[i]) by {
            if i > 0 {
                assert(t[i - 1] == s[i]);
            }
        }
        assert forall|i: int| q + 1 <= i < s.len() implies white_space(#[trigger] s[i]) by {
            assert(t[i - 1] == s[i]);
        }
        (p + 1, q + 1)
    } else if white_space(s.last()) {
        let t = s.drop_last();
        let (p, q) = trimming_keeps_what_stands_between(t);
        assert(t.subrange(p, q) =~= s.subrange(p, q));
        assert forall|i: int| 0 <= i < p implies white_space(#[trigger] s[i]) by {
            assert(t[i] == s[i]);
        }
        assert forall|i: int| q <= i < s.len() implies white_space(#[trigger] s[i]) by {
            if i < t.len() {
                assert(t[i] == s[i]);
            }
        }
        (p, q)
    } else {
        assert(s.subrange(0, s.len() as int) =~= s);
        (0, s.len() as int)
    }
}

} // verus!
