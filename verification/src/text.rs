//! Characters and strings: the classes of characters that the tokenizer tells
//! apart, decimal notation for integers, and the few operations on `String`
//! that the standard library is trusted for.

use crate::errors::Error;
use vstd::prelude::*;
use vstd::string::StrSliceExecFns;

verus! {

/// Whether `char::is_whitespace` holds of the character.
pub uninterp spec fn whitespace(c: char) -> bool;

/// Whether `char::is_alphabetic` holds of the character.
pub uninterp spec fn alphabetic(c: char) -> bool;

/// Whether `char::is_numeric` holds of the character.
pub uninterp spec fn numeric(c: char) -> bool;

/// What `str::to_uppercase` makes of a string.
pub uninterp spec fn uppercase(s: Seq<char>) -> Seq<char>;

/// Calls `char::is_whitespace`, which tells whether Unicode counts the
/// character as white space. The contract only names the answer.
#[verifier::external_body]
pub(crate) fn is_whitespace(c: char) -> (b: bool)
    ensures
        b == whitespace(c),
{
    c.is_whitespace()
}

/// Calls `char::is_alphabetic`, which tells whether Unicode counts the
/// character as alphabetic. The contract only names the answer.
#[verifier::external_body]
pub(crate) fn is_alphabetic(c: char) -> (b: bool)
    ensures
        b == alphabetic(c),
{
    c.is_alphabetic()
}

/// Calls `char::is_alphanumeric`, which holds of the characters of which
/// `char::is_alphabetic` or `char::is_numeric` holds.
#[verifier::external_body]
pub(crate) fn is_alphanumeric(c: char) -> (b: bool)
    ensures
        b == (alphabetic(c) || numeric(c)),
{
    c.is_alphanumeric()
}

/// Calls `str::to_uppercase`, which maps each character as Unicode's
/// upper-case mapping says. The contract only names the result.
#[verifier::external_body]
pub(crate) fn to_uppercase(s: &str) -> (upper: String)
    ensures
        upper@ == uppercase(s@),
{
    s.to_uppercase()
}

/// What the standard library tells of a character: whether it is white space,
/// whether it is alphabetic, and whether it is alphabetic or numeric.
#[derive(Debug, Clone, Copy, PartialEq, Eq, Structural)]
pub struct CharClass {
    /// Whether the character separates tokens.
    pub whitespace: bool,
    /// Whether the character is a letter, which can begin an identifier.
    pub alphabetic: bool,
    /// Whether the character is a letter or a digit of any script, which can
    /// stand in an identifier.
    pub alphanumeric: bool,
}

/// The class of a character.
pub open spec fn class_of(c: char) -> CharClass {
    CharClass {
        whitespace: whitespace(c),
        alphabetic: alphabetic(c),
        alphanumeric: alphabetic(c) || numeric(c),
    }
}

/// Asks the standard library for the class of a character.
pub fn classify(c: char) -> (class: CharClass)
    ensures
        class == class_of(c),
{
    CharClass {
        whitespace: is_whitespace(c),
        alphabetic: is_alphabetic(c),
        alphanumeric: is_alphanumeric(c),
    }
}

/// Calls `String::push`, which appends one character to the string.
#[verifier::external_body]
pub(crate) fn push_char(s: &mut String, c: char)
    ensures
        final(s)@ == old(s)@.push(c),
{
    s.push(c)
}

/// The ASCII digits `0` to `9`.
pub open spec fn is_digit(c: char) -> bool {
    '0' <= c <= '9'
}

/// The ASCII punctuation characters: the printable ASCII characters that are
/// neither letters nor digits nor the space.
pub open spec fn is_punctuation(c: char) -> bool {
    ||| '!' <= c <= '/'
    ||| ':' <= c <= '@'
    ||| '[' <= c <= '`'
    ||| '{' <= c <= '~'
}

/// Whether the character is an ASCII digit.
pub fn is_ascii_digit(c: char) -> (b: bool)
    ensures
        b == is_digit(c),
{
    '0' <= c && c <= '9'
}

/// Whether the character is an ASCII punctuation character.
pub fn is_ascii_punctuation(c: char) -> (b: bool)
    ensures
        b == is_punctuation(c),
{
    ('!' <= c && c <= '/') || (':' <= c && c <= '@') || ('[' <= c && c <= '`') || ('{' <= c && c
        <= '~')
}

/// The digit character for a number below ten.
pub open spec fn digit_char(d: nat) -> char
    recommends
        d < 10,
{
    (('0' as nat) + d) as char
}

/// Decimal notation of a natural number, without leading zeros.
pub open spec fn decimal(n: nat) -> Seq<char>
    decreases n,
{
    if n < 10 {
        seq![digit_char(n)]
    } else {
        decimal(n / 10).push(digit_char(n % 10))
    }
}

/// Decimal notation of an integer: a minus sign before a negative number.
pub open spec fn decimal_of(i: int) -> Seq<char> {
    if i < 0 {
        seq!['-'] + decimal((-i) as nat)
    } else {
        decimal(i as nat)
    }
}

/// Appends the decimal notation of `n` to the string.
pub fn push_decimal(s: &mut String, n: u32)
    ensures
        final(s)@ == old(s)@ + decimal(n as nat),
    decreases n,
{
    if n >= 10 {
        push_decimal(s, n / 10);
    }
    let d: u8 = (n % 10) as u8;
    push_char(s, (48u8 + d) as char);
}

/// Appends the decimal notation of `i` to the string.
pub fn push_integer(s: &mut String, i: i32)
    ensures
        final(s)@ == old(s)@ + decimal_of(i as int),
{
    if i < 0 {
        push_char(s, '-');
        let magnitude: u32 = if i == i32::MIN {
            2147483648u32
        } else {
            (-i) as u32
        };
        push_decimal(s, magnitude);
    } else {
        push_decimal(s, i as u32);
    }
}

/// The number that a digit character stands for.
pub open spec fn digit_value(c: char) -> nat
    recommends
        is_digit(c),
{
    (c as nat - '0' as nat) as nat
}

/// The number that a string of digits denotes in base ten.
pub open spec fn digits_value(s: Seq<char>) -> nat
    decreases s.len(),
{
    if s.len() == 0 {
        0
    } else {
        digits_value(s.drop_last()) * 10 + digit_value(s.last())
    }
}

/// Whether the string holds ASCII digits and nothing else.
pub open spec fn all_digits(s: Seq<char>) -> bool {
    forall|i: int| 0 <= i < s.len() ==> is_digit(#[trigger] s[i])
}

/// Whether the string begins with a plus or minus sign.
pub open spec fn has_sign(s: Seq<char>) -> bool {
    s.len() > 0 && (s[0] == '-' || s[0] == '+')
}

/// The integer that a decimal literal denotes: an optional sign and at least
/// one digit, with a value that fits 32 bits. `None` for any other string.
pub open spec fn integer_of(s: Seq<char>) -> Option<int> {
    let digits = if has_sign(s) {
        s.drop_first()
    } else {
        s
    };
    let magnitude = digits_value(digits) as int;
    let value = if has_sign(s) && s[0] == '-' {
        -magnitude
    } else {
        magnitude
    };
    if digits.len() == 0 || !all_digits(digits) || value < i32::MIN || value > i32::MAX {
        None
    } else {
        Some(value)
    }
}

/// A string of one or more digits denotes its value in base ten, and is a
/// literal exactly when that value fits.
pub proof fn lemma_integer_of_digits(digits: Seq<char>)
    requires
        digits.len() > 0,
        all_digits(digits),
    ensures
        integer_of(digits) == if digits_value(digits) <= i32::MAX {
            Some(digits_value(digits) as int)
        } else {
            None
        },
{
    assert(is_digit(digits[0]));
}

/// The decimal notation of a number is a string of digits that denotes it.
pub proof fn lemma_decimal_denotes(n: nat)
    ensures
        decimal(n).len() > 0,
        all_digits(decimal(n)),
        digits_value(decimal(n)) == n,
    decreases n,
{
    if n < 10 {
        assert(decimal(n).drop_last() == Seq::<char>::empty());
        assert(digits_value(decimal(n).drop_last()) == 0);
    } else {
        lemma_decimal_denotes(n / 10);
        let front = decimal(n / 10);
        let all = front.push(digit_char(n % 10));
        assert(all.drop_last() == front);
        assert forall|i: int| 0 <= i < all.len() implies is_digit(#[trigger] all[i]) by {
            if i < front.len() {
                assert(all[i] == front[i]);
            }
        }
    }
}

/// Writing an integer, then reading it: the decimal notation of a 32-bit
/// integer is a literal that denotes that integer.
pub proof fn lemma_written_integer_is_read_back(i: int)
    requires
        i32::MIN <= i <= i32::MAX,
    ensures
        integer_of(decimal_of(i)) == Some(i),
{
    if i < 0 {
        let n = (-i) as nat;
        lemma_decimal_denotes(n);
        let text = seq!['-'] + decimal(n);
        assert(text.drop_first() == decimal(n));
        assert(text[0] == '-');
    } else {
        lemma_decimal_denotes(i as nat);
        assert(is_digit(decimal(i as nat)[0]));
    }
}

/// Reads a decimal literal. Fails with `ParseError` where the string is not
/// one, or where its value does not fit a signed 32-bit integer.
pub fn parse_integer(s: &str) -> (result: Result<i32, Error>)
    ensures
        match integer_of(s@) {
            Some(value) => result == Ok::<i32, Error>(value as i32) && result->Ok_0 == value,
            None => result == Err::<i32, Error>(Error::ParseError),
        },
{
    let n = s.unicode_len();
    if n == 0 {
        return Err(Error::ParseError);
    }
    let first = s.get_char(0);
    let negative = first == '-';
    let start: usize = if first == '-' || first == '+' {
        1
    } else {
        0
    };
    if start == n {
        return Err(Error::ParseError);
    }
    let ghost digits = s@.subrange(start as int, n as int);
    assert(digits == if has_sign(s@) {
        s@.drop_first()
    } else {
        s@
    });
    let limit: u64 = 4294967296;
    let mut total: u64 = 0;
    let mut i: usize = start;
    while i < n
        invariant
            start <= i <= n,
            n == s@.len(),
            limit == 4294967296,
            digits == s@.subrange(start as int, n as int),
            digits == if has_sign(s@) {
                s@.drop_first()
            } else {
                s@
            },
            negative == (has_sign(s@) && s@[0] == '-'),
            all_digits(digits.subrange(0, i - start)),
            total == if digits_value(digits.subrange(0, i - start)) < limit {
                digits_value(digits.subrange(0, i - start))
            } else {
                limit as nat
            },
        decreases n - i,
    {
        let c = s.get_char(i);
        if !is_ascii_digit(c) {
            assert(!is_digit(digits[i - start]));
            return Err(Error::ParseError);
        }
        let d: u64 = (c as u32 - '0' as u32) as u64;
        proof {
            let next = digits.subrange(0, i - start + 1);
            assert(next.drop_last() == digits.subrange(0, i - start));
            assert(next.last() == c);
        }
        total = total * 10 + d;
        if total > limit {
            total = limit;
        }
        i = i + 1;
    }
    assert(digits.subrange(0, n - start) == digits);
    if negative {
        if total > 2147483648 {
            Err(Error::ParseError)
        } else if total == 2147483648 {
            Ok(i32::MIN)
        } else {
            Ok(-(total as i32))
        }
    } else {
        if total > 2147483647 {
            Err(Error::ParseError)
        } else {
            Ok(total as i32)
        }
    }
}

} // verus!
