//! Whole numbers as decimal text, the form in which the property editor shows
//! and takes them.

use vstd::prelude::*;
use vstd::string::StringExecFns;

verus! {

/// The character that stands for the digit `d`.
pub open spec fn digit_char(d: int) -> char {
    if d == 0 {
        '0'
    } else if d == 1 {
        '1'
    } else if d == 2 {
        '2'
    } else if d == 3 {
        '3'
    } else if d == 4 {
        '4'
    } else if d == 5 {
        '5'
    } else if d == 6 {
        '6'
    } else if d == 7 {
        '7'
    } else if d == 8 {
        '8'
    } else {
        '9'
    }
}

/// The digits of `n`, the most significant first, without leading zeros.
pub open spec fn digits(n: nat) -> Seq<char>
    decreases n,
{
    if n < 10 {
        seq![digit_char(n as int)]
    } else {
        digits(n / 10).push(digit_char((n % 10) as int))
    }
}

/// The decimal text of `v`: a minus sign if it is negative, then its digits.
pub open spec fn decimal(v: int) -> Seq<char> {
    if v < 0 {
        seq!['-'] + digits((-v) as nat)
    } else {
        digits(v as nat)
    }
}

/// The digit that a character stands for, if it is one of `0` to `9`.
pub open spec fn digit_of(c: char) -> Option<int> {
    if '0' <= c <= '9' {
        Some(c as int - '0' as int)
    } else {
        None
    }
}

/// Whether every character is a digit.
pub open spec fn all_digits(s: Seq<char>) -> bool {
    forall|i: int| 0 <= i < s.len() ==> (#[trigger] digit_of(s[i])) is Some
}

/// The number that a run of digits spells; 0 for the empty run.
pub open spec fn digits_value(s: Seq<char>) -> int
    decreases s.len(),
{
    if s.len() == 0 {
        0
    } else {
        digits_value(s.drop_last()) * 10 + digit_of(s.last()).unwrap_or(0)
    }
}

/// The whole number that a text spells: an optional `+` or `-`, then one or
/// more digits and nothing else. Any other text spells none.
pub open spec fn decimal_value(s: Seq<char>) -> Option<int> {
    if s.len() == 0 {
        None
    } else {
        let signed = s[0] == '-' || s[0] == '+';
        let body = if signed { s.skip(1) } else { s };
        if body.len() > 0 && all_digits(body) {
            Some(if s[0] == '-' { -digits_value(body) } else { digits_value(body) })
        } else {
            None
        }
    }
}

/// A number as a 64-bit value, where it is one.
pub open spec fn fitting(v: Option<int>) -> Option<i64> {
    match v {
        Some(n) => if i64::MIN <= n <= i64::MAX {
            Some(n as i64)
        } else {
            None
        },
        None => None,
    }
}

/// A run of digits spells no negative number.
pub proof fn lemma_value_not_negative(s: Seq<char>)
    ensures
        digits_value(s) >= 0,
    decreases s.len(),
{
    if s.len() > 0 {
        lemma_value_not_negative(s.drop_last());
    }
}

/// What a run of digits spells is one digit more than what it spells without
/// its last digit.
pub proof fn lemma_value_step(s: Seq<char>, k: int)
    requires
        0 <= k < s.len(),
    ensures
        digits_value(s.take(k + 1)) == digits_value(s.take(k)) * 10 + digit_of(s[k]).unwrap_or(0),
{
    assert(s.take(k + 1).drop_last() =~= s.take(k));
}

/// A run of digits spells at least as much as any of its beginnings.
pub proof fn lemma_value_grows(s: Seq<char>, k: int)
    requires
        0 <= k <= s.len(),
    ensures
        digits_value(s.take(k)) <= digits_value(s),
    decreases s.len() - k,
{
    if k == s.len() {
        assert(s.take(k) =~= s);
    } else {
        lemma_value_grows(s, k + 1);
        lemma_value_step(s, k);
        lemma_value_not_negative(s.take(k));
    }
}

/// The digits of a number are digits, at least one, and spell the number.
pub proof fn lemma_digits_spell(n: nat)
    ensures
        digits(n).len() > 0,
        all_digits(digits(n)),
        digits_value(digits(n)) == n,
    decreases n,
{
    if n < 10 {
        let only = digits(n);
        assert(digit_of(digit_char(n as int)) == Some(n as int));
        assert(only.drop_last() =~= Seq::<char>::empty());
        assert(digits_value(only.drop_last()) == 0);
        assert(only.last() == digit_char(n as int));
    } else {
        let front = digits(n / 10);
        let last = digit_char((n % 10) as int);
        lemma_digits_spell(n / 10);
        assert(digit_of(last) == Some((n % 10) as int));
        assert(front.push(last).drop_last() =~= front);
        assert(front.push(last).last() == last);
        assert(digits_value(digits(n)) == digits_value(front) * 10 + (n % 10));
        assert forall|i: int| 0 <= i < digits(n).len() implies (#[trigger] digit_of(
            digits(n)[i],
        )) is Some by {
            if i < front.len() {
                assert(digit_of(front[i]) is Some);
            }
        }
    }
}

/// The decimal text of a number spells that number: what is written is read
/// back as it was.
pub proof fn lemma_decimal_round_trip(v: int)
    ensures
        decimal_value(decimal(v)) == Some(v),
{
    if v < 0 {
        let body = digits((-v) as nat);
        lemma_digits_spell((-v) as nat);
        assert(decimal(v).skip(1) =~= body);
    } else {
        lemma_digits_spell(v as nat);
        assert(digit_of(digits(v as nat)[0]) is Some);
    }
}

/// The text of one digit.
fn digit_text(d: u64) -> (text: &'static str)
    requires
        d < 10,
    ensures
        text@ == seq![digit_char(d as int)],
{
    proof {
        reveal_strlit("0");
        reveal_strlit("1");
        reveal_strlit("2");
        reveal_strlit("3");
        reveal_strlit("4");
        reveal_strlit("5");
        reveal_strlit("6");
        reveal_strlit("7");
        reveal_strlit("8");
        reveal_strlit("9");
    }
    let text = if d == 0 {
        "0"
    } else if d == 1 {
        "1"
    } else if d == 2 {
        "2"
    } else if d == 3 {
        "3"
    } else if d == 4 {
        "4"
    } else if d == 5 {
        "5"
    } else if d == 6 {
        "6"
    } else if d == 7 {
        "7"
    } else if d == 8 {
        "8"
    } else {
        "9"
    };
    text
}

/// Appends the digits of `n` to `out`.
fn push_digits(out: &mut String, n: u64)
    ensures
        final(out)@ == old(out)@ + digits(n as nat),
    decreases n,
{
    if n >= 10 {
        push_digits(out, n / 10);
    }
    out.append(digit_text(n % 10));
    assert(final(out)@ =~= old(out)@ + digits(n as nat));
}

/// The decimal text of `v`.
pub fn format_decimal(v: i64) -> (text: String)
    ensures
        text@ == decimal(v as int),
{
    let mut out = String::new();
    if v < 0 {
        proof {
            reveal_strlit("-");
        }
        out.append("-");
        let size: u64 = (-(v as i128)) as u64;
        push_digits(&mut out, size);
    } else {
        push_digits(&mut out, v as u64);
    }
    out
}

/// Reads a whole number from its decimal text. The result is `None` where the
/// text spells no number, and where the number does not fit in 64 bits.
pub fn parse_decimal(text: &str) -> (r: Option<i64>)
    ensures
        r == fitting(decimal_value(text@)),
{
    broadcast use vstd::string::is_ascii_spec_bytes;

    if !text.is_ascii() {
        proof {
            if decimal_value(text@) is Some {
                lemma_decimal_is_ascii(text@);
            }
        }
        return None;
    }
    let bytes = text.as_bytes();
    let n: usize = bytes.len();
    if n == 0 {
        return None;
    }
    let first: u8 = bytes[0];
    assert(first == text@[0] as u8);
    let negative: bool = first == 45;
    let start: usize = if first == 45 || first == 43 {
        1
    } else {
        0
    };
    assert(negative == (text@[0] == '-'));
    assert((start == 1) == (text@[0] == '-' || text@[0] == '+'));
    let ghost body = if start == 1 {
        text@.skip(1)
    } else {
        text@
    };
    if start == n {
        return None;
    }
    let mut total: u64 = 0;
    let mut i: usize = start;
    assert(body.take(0) =~= Seq::<char>::empty());
    while i < n
        invariant
            start <= i <= n,
            n == text@.len(),
            n == bytes@.len(),
            start <= 1,
            n > 0,
            (start == 1) == (text@[0] == '-' || text@[0] == '+'),
            body == if start == 1 {
                text@.skip(1)
            } else {
                text@
            },
            body.len() == n - start,
            forall|k: int| 0 <= k < body.len() ==> body[k] == text@[k + start],
            forall|k: int| 0 <= k < n ==> bytes@[k] == #[trigger] text@[k] as u8,
            vstd::utf8::is_ascii_chars(text@),
            all_digits(body.take(i - start)),
            total == digits_value(body.take(i - start)),
            total <= 0x8000_0000_0000_0000,
        decreases n - i,
    {
        let b: u8 = bytes[i];
        let ghost c = text@[i as int];
        assert(b == c as u8);
        assert(c == body[i - start]);
        assert('\0' <= c <= '\u{7f}');
        if b < 48 || b > 57 {
            assert(digit_of(c) is None);
            assert(!all_digits(body));
            return None;
        }
        let d: u64 = (b - 48) as u64;
        assert(digit_of(c) == Some(d as int));
        proof {
            lemma_value_step(body, i - start);
        }
        if total > (0x8000_0000_0000_0000 - d) / 10 {
            proof {
                if all_digits(body) {
                    lemma_value_grows(body, i - start + 1);
                }
            }
            return None;
        }
        total = total * 10 + d;
        assert(all_digits(body.take(i + 1 - start))) by {
            assert forall|k: int| 0 <= k < body.take(i + 1 - start).len() implies (
            #[trigger] digit_of(body.take(i + 1 - start)[k])) is Some by {
                if k < i - start {
                    assert(body.take(i + 1 - start)[k] == body.take(i - start)[k]);
                }
            }
        }
        i = i + 1;
    }
    assert(body.take(n - start) =~= body);
    if negative {
        if total == 0x8000_0000_0000_0000 {
            Some(-0x8000_0000_0000_0000)
        } else {
            Some(-(total as i64))
        }
    } else if total > 0x7fff_ffff_ffff_ffff {
        None
    } else {
        Some(total as i64)
    }
}

/// The coordinate that a text spells, if it spells a whole number in the
/// range of a coordinate.
pub open spec fn coordinate_value(s: Seq<char>) -> Option<i32> {
    match decimal_value(s) {
        Some(n) => if i32::MIN <= n <= i32::MAX {
            Some(n as i32)
        } else {
            None
        },
        None => None,
    }
}

/// The radius that a text spells, if it spells a whole number in the range of
/// a radius; a negative number is none.
pub open spec fn radius_value(s: Seq<char>) -> Option<u32> {
    match decimal_value(s) {
        Some(n) => if 0 <= n <= u32::MAX {
            Some(n as u32)
        } else {
            None
        },
        None => None,
    }
}

/// Reads a coordinate from its decimal text.
pub fn parse_coordinate(text: &str) -> (r: Option<i32>)
    ensures
        r == coordinate_value(text@),
{
    match parse_decimal(text) {
        Some(n) => if -2147483648 <= n && n <= 2147483647 {
            Some(n as i32)
        } else {
            None
        },
        None => None,
    }
}

/// Reads a radius from its decimal text.
pub fn parse_radius(text: &str) -> (r: Option<u32>)
    ensures
        r == radius_value(text@),
{
    match parse_decimal(text) {
        Some(n) => if 0 <= n && n <= 4294967295 {
            Some(n as u32)
        } else {
            None
        },
        None => None,
    }
}

/// A text that spells a number is made of ASCII characters.
proof fn lemma_decimal_is_ascii(s: Seq<char>)
    requires
        decimal_value(s) is Some,
    ensures
        vstd::utf8::is_ascii_chars(s),
{
    let signed = s[0] == '-' || s[0] == '+';
    let body = if signed {
        s.skip(1)
    } else {
        s
    };
    assert forall|i: int| 0 <= i < s.len() implies '\0' <= #[trigger] s[i] <= '\u{7f}' by {
        if signed && i == 0 {
        } else if signed {
            assert(s[i] == body[i - 1]);
            assert(digit_of(body[i - 1]) is Some);
        } else {
            assert(digit_of(body[i]) is Some);
        }
    }
}

} // verus!
