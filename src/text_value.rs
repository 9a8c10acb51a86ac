//! Conversion between a typed value and the text an input field shows.

use vstd::prelude::*;

verus! {

/// The error that a failed parse of a field's text carries.
#[derive(Clone, Copy, Debug, PartialEq, Eq, Structural)]
pub struct TypedInputParseError {}

/// A value that a typed input field can hold: it is read from text and
/// written back to text.
pub trait TextValue: Sized {
    /// What parsing `text` gives.
    spec fn parse_spec(text: Seq<char>) -> Result<Self, TypedInputParseError>;

    /// The text that formatting `v` gives.
    spec fn format_spec(v: Self) -> Seq<char>;

    /// Reads a value from `text`.
    fn parse_text(text: &str) -> (r: Result<Self, TypedInputParseError>)
        ensures
            r == Self::parse_spec(text@),
    ;

    /// Writes the value as text.
    fn format_text(&self) -> (r: String)
        ensures
            r@ == Self::format_spec(*self),
    ;

    /// An equal value.
    fn copy_value(&self) -> (r: Self)
        ensures
            r == *self,
    ;
}

/// Formatting `v` and parsing the text back gives `v` again.
pub open spec fn round_trips<T: TextValue>(v: T) -> bool {
    T::parse_spec(T::format_spec(v)) == Ok::<T, TypedInputParseError>(v)
}

/// Whether `c` is one of the ASCII digits `0` to `9`.
pub open spec fn is_digit(c: char) -> bool {
    ('0' as u32) <= (c as u32) <= ('9' as u32)
}

/// The value of the digit `c`.
pub open spec fn digit_value(c: char) -> int {
    (c as u32) as int - ('0' as u32) as int
}

/// The digit that stands for `d`, for `d` from 0 to 9.
pub open spec fn digit_char(d: int) -> char {
    if d == 0 {
        '0'
    } else if d == 1 {
        '1'
    } else if d == 2 {
        '2'
    } else if d == 3 {
        '3'
    } else if d == 4 {
        '4'
    } else if d == 5 {
        '5'
    } else if d == 6 {
        '6'
    } else if d == 7 {
        '7'
    } else if d == 8 {
        '8'
    } else {
        '9'
    }
}

/// One or more ASCII digits, and nothing else.
pub open spec fn all_digits(s: Seq<char>) -> bool {
    s.len() > 0 && forall|i: int| 0 <= i < s.len() ==> is_digit(#[trigger] s[i])
}

/// The number that the digits `s` write in base ten.
pub open spec fn digits_value(s: Seq<char>) -> int
    decreases s.len(),
{
    if s.len() == 0 {
        0
    } else {
        10 * digits_value(s.drop_last()) + digit_value(s.last())
    }
}

/// The digits of `n` in base ten, without leading zeros.
pub open spec fn digits_text(n: nat) -> Seq<char>
    decreases n,
{
    if n < 10 {
        seq![digit_char(n as int)]
    } else {
        digits_text(n / 10).push(digit_char((n % 10) as int))
    }
}

/// A decimal integer as std reads one: an optional `+` or `-`, then one or
/// more ASCII digits.
pub open spec fn decimal_value(text: Seq<char>) -> Option<int> {
    if text.len() > 0 && (text[0] == '-' || text[0] == '+') {
        let body = text.skip(1);
        if !all_digits(body) {
            None
        } else if text[0] == '-' {
            Some(-digits_value(body))
        } else {
            Some(digits_value(body))
        }
    } else if all_digits(text) {
        Some(digits_value(text))
    } else {
        None
    }
}

/// What std's parser makes of `text` as an `i64`: `None` where `text` is
/// no decimal integer or its value does not fit.
pub open spec fn decimal_i64_parse(text: Seq<char>) -> Option<i64> {
    match decimal_value(text) {
        Some(v) => if i64::MIN <= v <= i64::MAX {
            Some(v as i64)
        } else {
            None
        },
        None => None,
    }
}

/// The text that std writes for `v`: a `-` where `v` is negative, then the
/// digits of its magnitude.
pub open spec fn decimal_i64_text(v: i64) -> Seq<char> {
    if v < 0 {
        seq!['-'] + digits_text((-(v as int)) as nat)
    } else {
        digits_text(v as nat)
    }
}

/// Relies on `<i64 as FromStr>::from_str`, which takes an optional sign and
/// ASCII digits, and refuses any other text and any value out of range.
#[verifier::external_body]
fn parse_i64(text: &str) -> (r: Option<i64>)
    ensures
        r == decimal_i64_parse(text@),
{
    text.parse::<i64>().ok()
}

/// Relies on `<i64 as ToString>::to_string`, which writes the decimal
/// digits of the value, with a leading `-` where it is negative.
#[verifier::external_body]
fn format_i64(v: i64) -> (r: String)
    ensures
        r@ == decimal_i64_text(v),
{
    v.to_string()
}

/// The digits of `n` are digits, and read back as `n`.
pub proof fn lemma_digits_round_trip(n: nat)
    ensures
        all_digits(digits_text(n)),
        digits_value(digits_text(n)) == n,
    decreases n,
{
    if n < 10 {
        let s = digits_text(n);
        assert(s.drop_last() =~= Seq::<char>::empty());
        assert(is_digit(s[0]) && digit_value(s[0]) == n);
        assert(digits_value(s.drop_last()) == 0);
        assert(digits_value(s) == 10 * digits_value(s.drop_last()) + digit_value(s.last()));
    } else {
        lemma_digits_round_trip(n / 10);
        let d = digit_char((n % 10) as int);
        let s = digits_text(n);
        assert(s.drop_last() =~= digits_text(n / 10));
        assert(is_digit(d) && digit_value(d) == n % 10);
        assert(s.last() == d);
        assert(digits_value(s) == 10 * digits_value(s.drop_last()) + digit_value(s.last()));
        assert(n == 10 * (n / 10) + n % 10);
        assert forall|i: int| 0 <= i < s.len() implies is_digit(#[trigger] s[i]) by {
            if i < s.len() - 1 {
                assert(s[i] == digits_text(n / 10)[i]);
            }
        }
    }
}

/// Every `i64` written out by std reads back as itself.
pub proof fn lemma_i64_round_trip(v: i64)
    ensures
        round_trips(v),
{
    let text = decimal_i64_text(v);
    if v < 0 {
        let m = (-(v as int)) as nat;
        lemma_digits_round_trip(m);
        assert(text.skip(1) =~= digits_text(m));
        assert(text[0] == '-');
    } else {
        lemma_digits_round_trip(v as nat);
        assert(is_digit(text[0]));
    }
}

/// Integer fields, read and written in decimal as std does.
impl TextValue for i64 {
    open spec fn parse_spec(text: Seq<char>) -> Result<i64, TypedInputParseError> {
        match decimal_i64_parse(text) {
            Some(v) => Ok(v),
            None => Err(TypedInputParseError {  }),
        }
    }

    open spec fn format_spec(v: i64) -> Seq<char> {
        decimal_i64_text(v)
    }

    fn parse_text(text: &str) -> (r: Result<i64, TypedInputParseError>) {
        match parse_i64(text) {
            Some(v) => Ok(v),
            None => Err(TypedInputParseError {  }),
        }
    }

    fn format_text(&self) -> (r: String) {
        format_i64(*self)
    }

    fn copy_value(&self) -> (r: i64) {
        *self
    }
}

} // verus!
