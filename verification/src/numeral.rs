//! Decimal text: how an integer is written and how a line of input is read.

use vstd::prelude::*;

verus! {


/// The character that writes the digit `d`.
pub open spec fn digit_char(d: int) -> char {
    (d + 48) as char
}

/// The digits of `n`, most significant first, with no leading zero.
pub open spec fn digits(n: nat) -> Seq<char>
    decreases n,
{
    if n < 10 {
        seq![digit_char(n as int)]
    } else {
        digits(n / 10).push(digit_char((n % 10) as int))
    }
}

/// The decimal text of `n`: its digits, after a minus sign where `n` is
/// negative.
pub open spec fn decimal(n: int) -> Seq<char> {
    if n < 0 {
        seq!['-'] + digits((-n) as nat)
    } else {
        digits(n as nat)
    }
}

/// Whether `c` is one of the digits `0` to `9`.
pub open spec fn is_digit(c: char) -> bool {
    '0' <= c <= '9'
}

/// The number that a run of digits writes; 0 for the empty run.
pub open spec fn digits_value(s: Seq<char>) -> nat
    decreases s.len(),
{
    if s.len() == 0 {
        0
    } else {
        (10 * digits_value(s.drop_last()) + (s.last() as int - 48)) as nat
    }
}

/// Whether every character of `s` is a digit.
pub open spec fn all_digits(s: Seq<char>) -> bool {
    forall|i: int| 0 <= i < s.len() ==> is_digit(#[trigger] s[i])
}

/// The number that `line` writes in decimal, if it writes one: an optional
/// `+` or `-`, then one or more digits and nothing else, with a value that
/// fits in 64 bits.
pub open spec fn parsed(line: Seq<char>) -> Option<i64> {
    let signed = line.len() > 0 && (line[0] == '-' || line[0] == '+');
    let body = if signed { line.drop_first() } else { line };
    let value = if signed && line[0] == '-' { -(digits_value(body) as int) } else { digits_value(body) as int };
    if body.len() > 0 && all_digits(body) && i64::MIN <= value <= i64::MAX {
        Some(value as i64)
    } else {
        None
    }
}

/// The number that `line` writes, or 0 where it writes none.
pub open spec fn parsed_or_zero(line: Seq<char>) -> i64 {
    match parsed(line) {
        Some(v) => v,
        None => 0,
    }
}

/// Appends the digits of `n` to `out`.
fn push_digits(out: &mut String, n: u64)
    ensures
        final(out)@ == old(out)@ + digits(n as nat),
    decreases n,
{
    if n >= 10 {
        push_digits(out, n / 10);
    }
    out.push(((n % 10) as u8 + 48) as char);
}

/// Appends the decimal text of `v` to `out`.
pub fn push_decimal(out: &mut String, v: i64)
    ensures
        final(out)@ == old(out)@ + decimal(v as int),
{
    if v < 0 {
        out.push('-');
        // -(v + 1) fits even where v is the least value of all.
        let magnitude: u64 = (-(v + 1)) as u64 + 1;
        push_digits(out, magnitude);
    } else {
        push_digits(out, v as u64);
    }
}

/// Digits that follow only add to the value: a prefix of a run of digits
/// writes no more than the whole run.
proof fn lemma_prefix_value(s: Seq<char>, k: int)
    requires
        all_digits(s),
        0 <= k <= s.len(),
    ensures
        digits_value(s.take(k)) <= digits_value(s),
    decreases s.len(),
{
    if k == s.len() {
        assert(s.take(k) == s);
    } else {
        lemma_prefix_value(s.drop_last(), k);
        assert(s.drop_last().take(k) == s.take(k));
        assert(is_digit(s.last()));
    }
}

/// Reads `line` as a decimal number.
pub fn parse_decimal(line: &str) -> (r: Option<i64>)
    ensures
        r == parsed(line@),
{
    let mut signed = false;
    let mut negative = false;
    let mut first = true;
    let mut any = false;
    let mut magnitude: u64 = 0;
    let ghost whole = if line@.len() > 0 && (line@[0] == '-' || line@[0] == '+') {
        line@.drop_first()
    } else {
        line@
    };
    for ch in it: line.chars()
        invariant
            it.seq() == line@,
            first == (it.index() == 0),
            signed == (line@.len() > 0 && it.index() > 0 && (line@[0] == '-' || line@[0] == '+')),
            negative == (signed && line@[0] == '-'),
            whole == (if line@.len() > 0 && (line@[0] == '-' || line@[0] == '+') {
                line@.drop_first()
            } else {
                line@
            }),
            any == (it.index() > (if signed { 1int } else { 0int })),
            it.index() == 0 || it.index() - (if signed { 1int } else { 0int }) <= whole.len(),
            it.index() > 0 ==> all_digits(whole.take(it.index() - (if signed { 1int } else { 0int }))),
            it.index() > 0 ==> magnitude == digits_value(
                whole.take(it.index() - (if signed { 1int } else { 0int })),
            ),
            it.index() == 0 ==> magnitude == 0,
            magnitude <= 0x8000_0000_0000_0000,
    {
        let ghost i = it.index() as int;
        if first && (ch == '-' || ch == '+') {
            signed = true;
            negative = ch == '-';
            assert(whole.take(0).len() == 0);
        } else if '0' <= ch && ch <= '9' {
            let digit: u64 = ((ch as u8) - 48) as u64;
            let ghost at = i - (if signed { 1int } else { 0int });
            proof {
                assert(whole[at] == ch);
                assert(whole.take(at + 1).drop_last() == whole.take(at));
                assert(whole.take(at + 1).last() == ch);
                assert(all_digits(whole.take(at + 1))) by {
                    assert forall|j: int| 0 <= j < at + 1 implies is_digit(
                        #[trigger] whole.take(at + 1)[j],
                    ) by {
                        if j < at {
                            assert(whole.take(at)[j] == whole.take(at + 1)[j]);
                        }
                    }
                }
                if first {
                    assert(whole.take(0).len() == 0);
                    assert(digits_value(whole.take(0)) == 0);
                }
            }
            if magnitude > (0x8000_0000_0000_0000 - digit) / 10 {
                proof {
                    assert(digits_value(whole.take(at + 1)) > 0x8000_0000_0000_0000);
                    if all_digits(whole) {
                        lemma_prefix_value(whole, at + 1);
                    }
                }
                return None;
            }
            magnitude = magnitude * 10 + digit;
            any = true;
        } else {
            proof {
                let at = i - (if signed { 1int } else { 0int });
                assert(whole[at] == ch);
                assert(!is_digit(whole[at]));
            }
            return None;
        }
        first = false;
    }
    proof {
        let at = line@.len() - (if signed { 1int } else { 0int });
        if line@.len() > 0 {
            assert(whole.take(at) == whole);
        }
    }
    if !any {
        None
    } else if negative {
        if magnitude == 0x8000_0000_0000_0000 {
            Some(i64::MIN)
        } else {
            Some(-(magnitude as i64))
        }
    } else if magnitude == 0x8000_0000_0000_0000 {
        None
    } else {
        Some(magnitude as i64)
    }
}

} // verus!
