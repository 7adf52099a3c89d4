//! Text forms of payloads.
//!
//! A payload is anything that can be written out as text. [`Textual`] is the
//! capability; this module implements it for strings and for the integer
//! types, whose text is their decimal notation.

use vstd::prelude::*;
use vstd::string::StringExecFns;

verus! {

/// A value that can be written out as text.
///
/// Implementations state what `to_text` returns in their own `ensures`; the
/// chain operations speak of a payload's text as "a string that `to_text`
/// returned for it".
pub trait Textual {
    /// The text form of the value.
    fn to_text(&self) -> String;
}

/// `text` is a text form of `value`: a string that `to_text` returned for it.
pub open spec fn texts_as<T: Textual>(value: &T, text: String) -> bool {
    call_ensures(T::to_text, (value,), text)
}

/// The character of a decimal digit.
pub open spec fn digit_char(d: nat) -> char
    recommends
        d < 10,
{
    if d == 0 {
        '0'
    } else if d == 1 {
        '1'
    } else if d == 2 {
        '2'
    } else if d == 3 {
        '3'
    } else if d == 4 {
        '4'
    } else if d == 5 {
        '5'
    } else if d == 6 {
        '6'
    } else if d == 7 {
        '7'
    } else if d == 8 {
        '8'
    } else {
        '9'
    }
}

/// Decimal notation of a natural number: most significant digit first, no
/// leading zeros, `"0"` for zero.
pub open spec fn decimal(n: nat) -> Seq<char>
    decreases n,
{
    if n < 10 {
        seq![digit_char(n)]
    } else {
        decimal(n / 10).push(digit_char(n % 10))
    }
}

/// Decimal notation of an integer: a minus sign before the magnitude of a
/// negative number.
pub open spec fn signed_decimal(i: int) -> Seq<char> {
    if i < 0 {
        seq!['-'] + decimal((-i) as nat)
    } else {
        decimal(i as nat)
    }
}

/// The one-character string of a decimal digit.
fn digit_str(d: u8) -> (s: &'static str)
    requires
        d < 10,
    ensures
        s@ == seq![digit_char(d as nat)],
{
    proof {
        reveal_strlit("0");
        reveal_strlit("1");
        reveal_strlit("2");
        reveal_strlit("3");
        reveal_strlit("4");
        reveal_strlit("5");
        reveal_strlit("6");
        reveal_strlit("7");
        reveal_strlit("8");
        reveal_strlit("9");
    }
    let s = if d == 0 {
        "0"
    } else if d == 1 {
        "1"
    } else if d == 2 {
        "2"
    } else if d == 3 {
        "3"
    } else if d == 4 {
        "4"
    } else if d == 5 {
        "5"
    } else if d == 6 {
        "6"
    } else if d == 7 {
        "7"
    } else if d == 8 {
        "8"
    } else {
        "9"
    };
    assert(s@ =~= seq![digit_char(d as nat)]);
    s
}

/// Writes a natural number in decimal notation.
pub fn decimal_text(n: u128) -> (s: String)
    ensures
        s@ == decimal(n as nat),
    decreases n,
{
    if n < 10 {
        String::from(digit_str(n as u8))
    } else {
        let mut s = decimal_text(n / 10);
        s.append(digit_str((n % 10) as u8));
        s
    }
}

/// Writes an integer in decimal notation, with a minus sign if it is negative.
pub fn signed_decimal_text(i: i128) -> (s: String)
    ensures
        s@ == signed_decimal(i as int),
{
    if i < 0 {
        // The magnitude of the least `i128` does not fit in an `i128`.
        let magnitude: u128 = if i == i128::MIN {
            0x8000_0000_0000_0000_0000_0000_0000_0000u128
        } else {
            (-i) as u128
        };
        proof {
            reveal_strlit("-");
            assert("-"@ =~= seq!['-']);
        }
        let mut s = String::from("-");
        let digits = decimal_text(magnitude);
        s.append(digits.as_str());
        s
    } else {
        decimal_text(i as u128)
    }
}

impl Textual for String {
    fn to_text(&self) -> (s: String)
        ensures
            s@ == self@,
    {
        self.clone()
    }
}

impl<'a> Textual for &'a str {
    fn to_text(&self) -> (s: String)
        ensures
            s@ == self@,
    {
        String::from(*self)
    }
}

impl Textual for u8 {
    fn to_text(&self) -> (s: String)
        ensures
            s@ == decimal(*self as nat),
    {
        decimal_text(*self as u128)
    }
}

impl Textual for u16 {
    fn to_text(&self) -> (s: String)
        ensures
            s@ == decimal(*self as nat),
    {
        decimal_text(*self as u128)
    }
}

impl Textual for u32 {
    fn to_text(&self) -> (s: String)
        ensures
            s@ == decimal(*self as nat),
    {
        decimal_text(*self as u128)
    }
}

impl Textual for u64 {
    fn to_text(&self) -> (s: String)
        ensures
            s@ == decimal(*self as nat),
    {
        decimal_text(*self as u128)
    }
}

impl Textual for u128 {
    fn to_text(&self) -> (s: String)
        ensures
            s@ == decimal(*self as nat),
    {
        decimal_text(*self)
    }
}

impl Textual for usize {
    fn to_text(&self) -> (s: String)
        ensures
            s@ == decimal(*self as nat),
    {
        decimal_text(*self as u128)
    }
}

impl Textual for i8 {
    fn to_text(&self) -> (s: String)
        ensures
            s@ == signed_decimal(*self as int),
    {
        signed_decimal_text(*self as i128)
    }
}

impl Textual for i16 {
    fn to_text(&self) -> (s: String)
        ensures
            s@ == signed_decimal(*self as int),
    {
        signed_decimal_text(*self as i128)
    }
}

impl Textual for i32 {
    fn to_text(&self) -> (s: String)
        ensures
            s@ == signed_decimal(*self as int),
    {
        signed_decimal_text(*self as i128)
    }
}

impl Textual for i64 {
    fn to_text(&self) -> (s: String)
        ensures
            s@ == signed_decimal(*self as int),
    {
        signed_decimal_text(*self as i128)
    }
}

impl Textual for i128 {
    fn to_text(&self) -> (s: String)
        ensures
            s@ == signed_decimal(*self as int),
    {
        signed_decimal_text(*self)
    }
}

impl Textual for isize {
    fn to_text(&self) -> (s: String)
        ensures
            s@ == signed_decimal(*self as int),
    {
        signed_decimal_text(*self as i128)
    }
}

} // verus!
