//! Reading a guess from a line of text: surrounding white space is dropped,
//! and what is left must be a decimal number that fits a byte.

use vstd::prelude::*;
use vstd::slice::slice_subrange;

verus! {

/// Why a line of input holds no guess.
#[derive(Clone, Copy, Debug, PartialEq, Eq, Structural)]
pub enum GuessError {
    /// Nothing but white space is there.
    Empty,
    /// A character that is no digit is there, or a sign stands alone.
    InvalidDigit,
    /// The digits spell a number above 255.
    TooLarge,
}

/// The characters that count as white space: those of Unicode's
/// `White_Space` property.
pub open spec fn is_space(c: char) -> bool {
    let u = c as u32;
    ||| 0x09 <= u <= 0x0d
    ||| u == 0x20
    ||| u == 0x85
    ||| u == 0xa0
    ||| u == 0x1680
    ||| 0x2000 <= u <= 0x200a
    ||| u == 0x2028
    ||| u == 0x2029
    ||| u == 0x202f
    ||| u == 0x205f
    ||| u == 0x3000
}

/// `s` without the white space at its head.
pub open spec fn skip_spaces(s: Seq<char>) -> Seq<char>
    decreases s.len(),
{
    if s.len() > 0 && is_space(s[0]) {
        skip_spaces(s.drop_first())
    } else {
        s
    }
}

/// `s` without the white space at its tail.
pub open spec fn drop_spaces(s: Seq<char>) -> Seq<char>
    decreases s.len(),
{
    if s.len() > 0 && is_space(s.last()) {
        drop_spaces(s.drop_last())
    } else {
        s
    }
}

/// `s` without the white space at either end.
pub open spec fn trimmed(s: Seq<char>) -> Seq<char> {
    drop_spaces(skip_spaces(s))
}

/// One of the ten decimal digits.
pub open spec fn is_digit(c: char) -> bool {
    0x30 <= c as u32 <= 0x39
}

/// What a digit counts for; 0 for any other character.
pub open spec fn digit_of(c: char) -> nat {
    if is_digit(c) {
        (c as u32 - 0x30) as nat
    } else {
        0
    }
}

/// Every character of `s` is a digit.
pub open spec fn all_digits(s: Seq<char>) -> bool {
    forall|j: int| 0 <= j < s.len() ==> is_digit(#[trigger] s[j])
}

/// The number that the digits of `s` spell in base ten.
pub open spec fn decimal_value(s: Seq<char>) -> nat
    decreases s.len(),
{
    if s.len() == 0 {
        0
    } else {
        10 * decimal_value(s.drop_last()) + digit_of(s.last())
    }
}

/// `s` without one leading plus sign, where more than the sign is there.
pub open spec fn unsigned_part(s: Seq<char>) -> Seq<char> {
    if s.len() > 1 && s[0] == '+' {
        s.drop_first()
    } else {
        s
    }
}

/// The byte that `s` spells: an optional plus sign, then one or more digits
/// whose value is at most 255. Where `s` spells none, the error says what is
/// wrong with it: nothing is there, something other than a digit is there,
/// or the digits spell too large a number.
pub open spec fn parsed_byte(s: Seq<char>) -> Result<u8, GuessError> {
    let digits = unsigned_part(s);
    if s.len() == 0 {
        Err(GuessError::Empty)
    } else if !all_digits(digits) {
        Err(GuessError::InvalidDigit)
    } else if decimal_value(digits) > 255 {
        Err(GuessError::TooLarge)
    } else {
        Ok(decimal_value(digits) as u8)
    }
}

/// The guess that a line of input holds, or why it holds none.
pub open spec fn guess_in(line: Seq<char>) -> Result<u8, GuessError> {
    parsed_byte(trimmed(line))
}

/// Tells whether `c` is white space.
pub fn is_whitespace(c: char) -> (space: bool)
    ensures
        space == is_space(c),
{
    let u = c as u32;
    (0x09 <= u && u <= 0x0d) || u == 0x20 || u == 0x85 || u == 0xa0 || u == 0x1680 || (0x2000 <= u
        && u <= 0x200a) || u == 0x2028 || u == 0x2029 || u == 0x202f || u == 0x205f || u == 0x3000
}

/// The characters of `line`, one by one.
pub fn chars_of(line: &str) -> (chars: Vec<char>)
    ensures
        chars@ == line@,
{
    let mut chars: Vec<char> = Vec::new();
    for c in it: line.chars()
        invariant
            chars@ == it.seq().take(it.index() as int),
            it.seq() == line@,
    {
        chars.push(c);
    }
    chars
}

/// Where the trimmed part of `chars` starts and ends.
pub fn trim_bounds(chars: &[char]) -> (bounds: (usize, usize))
    ensures
        bounds.0 <= bounds.1 <= chars@.len(),
        chars@.subrange(bounds.0 as int, bounds.1 as int) == trimmed(chars@),
{
    let len = chars.len();
    let mut start: usize = 0;
    proof {
        assert(chars@.subrange(0, len as int) =~= chars@);
    }
    while start < len && is_whitespace(chars[start])
        invariant
            start <= len,
            len == chars@.len(),
            skip_spaces(chars@) == skip_spaces(chars@.subrange(start as int, len as int)),
        decreases len - start,
    {
        proof {
            assert(chars@.subrange(start as int, len as int).drop_first() =~= chars@.subrange(
                start + 1,
                len as int,
            ));
        }
        start = start + 1;
    }
    let mut end: usize = len;
    while end > start && is_whitespace(chars[end - 1])
        invariant
            start <= end <= len,
            len == chars@.len(),
            drop_spaces(chars@.subrange(start as int, len as int)) == drop_spaces(
                chars@.subrange(start as int, end as int),
            ),
        decreases end,
    {
        proof {
            assert(chars@.subrange(start as int, end as int).drop_last() =~= chars@.subrange(
                start as int,
                end - 1,
            ));
        }
        end = end - 1;
    }
    (start, end)
}

/// A prefix of a numeral spells no more than the whole.
proof fn lemma_prefix_value(s: Seq<char>, cut: int)
    requires
        0 <= cut <= s.len(),
    ensures
        decimal_value(s.subrange(0, cut)) <= decimal_value(s),
    decreases s.len(),
{
    if cut == s.len() {
        assert(s.subrange(0, cut) =~= s);
    } else {
        assert(s.subrange(0, cut) =~= s.drop_last().subrange(0, cut));
        lemma_prefix_value(s.drop_last(), cut);
    }
}

/// The byte that `chars` spell, or why they spell none.
pub fn parse_byte(chars: &[char]) -> (byte: Result<u8, GuessError>)
    ensures
        byte == parsed_byte(chars@),
{
    let len = chars.len();
    if len == 0 {
        return Err(GuessError::Empty);
    }
    let first: usize = if len > 1 && chars[0] == '+' {
        1
    } else {
        0
    };
    let ghost digits = unsigned_part(chars@);
    proof {
        assert(digits =~= chars@.subrange(first as int, len as int));
    }
    let mut at: usize = first;
    while at < len
        invariant
            first <= at <= len,
            len == chars@.len(),
            digits == unsigned_part(chars@),
            digits == chars@.subrange(first as int, len as int),
            forall|j: int| 0 <= j < at - first ==> is_digit(#[trigger] digits[j]),
        decreases len - at,
    {
        let u = chars[at] as u32;
        if u < 0x30 || u > 0x39 {
            proof {
                assert(!is_digit(digits[at - first]));
            }
            return Err(GuessError::InvalidDigit);
        }
        at = at + 1;
    }
    let mut value: u32 = 0;
    let mut at: usize = first;
    proof {
        assert(digits.subrange(0, 0) =~= Seq::<char>::empty());
    }
    while at < len
        invariant
            first <= at <= len,
            len == chars@.len(),
            chars@.len() > 0,
            digits == unsigned_part(chars@),
            digits == chars@.subrange(first as int, len as int),
            all_digits(digits),
            value as nat == decimal_value(digits.subrange(0, at - first)),
            value <= 255,
        decreases len - at,
    {
        let u = chars[at] as u32;
        let ghost before = digits.subrange(0, at - first);
        let ghost after = digits.subrange(0, at + 1 - first);
        proof {
            assert(after.drop_last() =~= before);
            assert(after.last() == digits[at - first]);
            assert(is_digit(digits[at - first]));
        }
        value = value * 10 + (u - 0x30);
        if value > 255 {
            proof {
                lemma_prefix_value(digits, at + 1 - first);
            }
            return Err(GuessError::TooLarge);
        }
        at = at + 1;
    }
    proof {
        assert(digits.subrange(0, len - first) =~= digits);
    }
    Ok(value as u8)
}

/// Reads the guess that `line` holds: the line is trimmed, and what is left
/// is read as a decimal byte.
pub fn parse_guess(line: &str) -> (guess: Result<u8, GuessError>)
    ensures
        guess == guess_in(line@),
{
    let chars = chars_of(line);
    let (start, end) = trim_bounds(chars.as_slice());
    let inner = slice_subrange(chars.as_slice(), start, end);
    parse_byte(inner)
}

} // verus!
