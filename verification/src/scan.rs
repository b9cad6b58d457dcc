//! Reading the output of other programs: lines, white space and decimal
//! numbers.

use vstd::prelude::*;

verus! {

/// White space, as Unicode defines it.
pub open spec fn is_space(c: char) -> bool {
    let n = c as u32;
    ||| 0x09 <= n <= 0x0D
    ||| n == 0x20
    ||| n == 0x85
    ||| n == 0xA0
    ||| n == 0x1680
    ||| 0x2000 <= n <= 0x200A
    ||| n == 0x2028
    ||| n == 0x2029
    ||| n == 0x202F
    ||| n == 0x205F
    ||| n == 0x3000
}

/// Whether `c` is white space.
pub fn is_whitespace(c: char) -> (space: bool)
    ensures
        space == is_space(c),
{
    let n: u32 = c as u32;
    (0x09 <= n && n <= 0x0D) || n == 0x20 || n == 0x85 || n == 0xA0 || n == 0x1680 || (0x2000 <= n
        && n <= 0x200A) || n == 0x2028 || n == 0x2029 || n == 0x202F || n == 0x205F || n == 0x3000
}

/// `s` without the white space at its beginning.
pub open spec fn without_leading_space(s: Seq<char>) -> Seq<char>
    decreases s.len(),
{
    if s.len() > 0 && is_space(s[0]) {
        without_leading_space(s.drop_first())
    } else {
        s
    }
}

/// `s` without the white space at its end.
pub open spec fn without_trailing_space(s: Seq<char>) -> Seq<char>
    decreases s.len(),
{
    if s.len() > 0 && is_space(s.last()) {
        without_trailing_space(s.drop_last())
    } else {
        s
    }
}

/// `s` without the white space at either end.
pub open spec fn trimmed(s: Seq<char>) -> Seq<char> {
    without_trailing_space(without_leading_space(s))
}

/// The bounds of the trimmed form of the characters from `from` to `to`.
pub(crate) fn trim_bounds(cs: &Vec<char>, from: usize, to: usize) -> (bounds: (usize, usize))
    requires
        from <= to <= cs.len(),
    ensures
        from <= bounds.0 <= bounds.1 <= to,
        cs@.subrange(bounds.0 as int, bounds.1 as int) == trimmed(cs@.subrange(from as int, to as int)),
{
    let mut a: usize = from;
    while a < to && is_whitespace(cs[a])
        invariant
            from <= a <= to <= cs.len(),
            without_leading_space(cs@.subrange(from as int, to as int)) == without_leading_space(
                cs@.subrange(a as int, to as int),
            ),
        decreases to - a,
    {
        assert(cs@.subrange(a as int, to as int).drop_first() =~= cs@.subrange(a + 1, to as int));
        a += 1;
    }
    let mut b: usize = to;
    while b > a && is_whitespace(cs[b - 1])
        invariant
            a <= b <= to <= cs.len(),
            without_trailing_space(cs@.subrange(a as int, to as int)) == without_trailing_space(
                cs@.subrange(a as int, b as int),
            ),
        decreases b - a,
    {
        assert(cs@.subrange(a as int, b as int).drop_last() =~= cs@.subrange(a as int, b - 1));
        b -= 1;
    }
    (a, b)
}

/// A decimal digit.
pub open spec fn is_digit(c: char) -> bool {
    '0' <= c <= '9'
}

/// Every character of `s` is a decimal digit.
pub open spec fn all_digits(s: Seq<char>) -> bool {
    forall|i: int| 0 <= i < s.len() ==> is_digit(#[trigger] s[i])
}

/// The number that a text of decimal digits denotes.
pub open spec fn decimal_value(s: Seq<char>) -> nat
    decreases s.len(),
{
    if s.len() == 0 {
        0
    } else {
        (decimal_value(s.drop_last()) * 10 + (s.last() as u32 - '0' as u32)) as nat
    }
}

/// The 32-bit integer that `s` denotes: an optional sign, then at least one
/// digit and nothing but digits, of a value that the type can hold.
pub open spec fn parsed_i32(s: Seq<char>) -> Option<i32> {
    let signed = s.len() > 0 && (s[0] == '-' || s[0] == '+');
    let digits = if signed {
        s.drop_first()
    } else {
        s
    };
    let value = if signed && s[0] == '-' {
        -(decimal_value(digits) as int)
    } else {
        decimal_value(digits) as int
    };
    if digits.len() > 0 && all_digits(digits) && i32::MIN <= value <= i32::MAX {
        Some(value as i32)
    } else {
        None
    }
}

/// A text of digits denotes at least what any of its beginnings denotes.
proof fn lemma_decimal_value_grows(s: Seq<char>, n: int)
    requires
        0 <= n <= s.len(),
        all_digits(s),
    ensures
        decimal_value(s.take(n)) <= decimal_value(s),
    decreases s.len() - n,
{
    if n == s.len() {
        assert(s.take(n) =~= s);
    } else {
        lemma_decimal_value_grows(s, n + 1);
        assert(s.take(n + 1).drop_last() =~= s.take(n));
        assert(is_digit(s[n]));
        assert(s.take(n + 1).last() == s[n]);
    }
}

/// Reads the characters from `from` to `to` as a 32-bit integer.
#[verifier::loop_isolation(false)]
pub(crate) fn parse_i32(cs: &Vec<char>, from: usize, to: usize) -> (number: Option<i32>)
    requires
        from <= to <= cs.len(),
    ensures
        number == parsed_i32(cs@.subrange(from as int, to as int)),
{
    let ghost s = cs@.subrange(from as int, to as int);
    let signed = from < to && (cs[from] == '-' || cs[from] == '+');
    let negative = signed && cs[from] == '-';
    let first: usize = if signed {
        from + 1
    } else {
        from
    };
    let ghost digits = cs@.subrange(first as int, to as int);
    proof {
        if signed {
            assert(s[0] == cs@[from as int]);
            assert(s.drop_first() =~= digits);
        } else {
            if from < to {
                assert(s[0] == cs@[from as int]);
            }
            assert(s =~= digits);
        }
    }
    if first == to {
        return None;
    }
    let mut at: usize = first;
    let mut sum: i64 = 0;
    while at < to
        invariant
            first <= at <= to <= cs.len(),
            digits == cs@.subrange(first as int, to as int),
            all_digits(digits.take(at - first)),
            sum == decimal_value(digits.take(at - first)),
            0 <= sum <= 0x8000_0000,
        decreases to - at,
    {
        let c = cs[at];
        let ghost head = digits.take(at - first + 1);
        proof {
            assert(head.drop_last() =~= digits.take(at - first));
            assert(head.last() == c);
        }
        if c < '0' || c > '9' {
            assert(!is_digit(digits[at - first]));
            return None;
        }
        let digit: i64 = (c as u32 - '0' as u32) as i64;
        sum = sum * 10 + digit;
        proof {
            assert forall|i: int| 0 <= i < head.len() implies is_digit(#[trigger] head[i]) by {
                if i < head.len() - 1 {
                    assert(head[i] == digits.take(at - first)[i]);
                }
            }
        }
        if sum > 0x8000_0000 {
            proof {
                if all_digits(digits) {
                    lemma_decimal_value_grows(digits, at - first + 1);
                }
            }
            return None;
        }
        at += 1;
    }
    assert(digits.take(to - first) =~= digits);
    if negative {
        Some((-sum) as i32)
    } else if sum <= 0x7fff_ffff {
        Some(sum as i32)
    } else {
        None
    }
}

/// How many characters stand before the first line feed of `text`; its
/// length where it holds none.
pub open spec fn line_length(text: Seq<char>) -> int
    decreases text.len(),
{
    if text.len() == 0 || text[0] == '\n' {
        0
    } else {
        1 + line_length(text.drop_first())
    }
}

/// A line without the carriage return that came before its line feed.
pub open spec fn without_carriage_return(line: Seq<char>) -> Seq<char> {
    if line.len() > 0 && line.last() == '\r' {
        line.drop_last()
    } else {
        line
    }
}

/// The lines of `text`. A line ends at a line feed, or at a carriage return
/// followed by one; neither belongs to the line. What follows the last line
/// feed is a line too unless it is empty.
pub open spec fn lines_of(text: Seq<char>) -> Seq<Seq<char>>
    decreases text.len(),
{
    let n = line_length(text);
    if text.len() == 0 {
        Seq::empty()
    } else if 0 <= n < text.len() {
        seq![without_carriage_return(text.take(n))] + lines_of(text.skip(n + 1))
    } else {
        seq![text]
    }
}

/// Where `end` is the first line feed at or after `start`, or the end of the
/// text where none follows, the first line of what begins at `start` ends
/// at `end`.
pub(crate) proof fn lemma_line_found(text: Seq<char>, start: int, end: int)
    requires
        0 <= start <= end <= text.len(),
        forall|i: int| start <= i < end ==> text[i] != '\n',
        end < text.len() ==> text[end] == '\n',
    ensures
        line_length(text.skip(start)) == end - start,
    decreases end - start,
{
    let rest = text.skip(start);
    if start == end {
        if end < text.len() {
            assert(rest[0] == text[end]);
        }
    } else {
        assert(rest[0] == text[start]);
        lemma_line_found(text, start + 1, end);
        assert(rest.drop_first() =~= text.skip(start + 1));
    }
}

} // verus!
