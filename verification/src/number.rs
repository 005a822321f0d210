//! Decimal numerals: reading one from text and writing one out.
//!
//! A numeral is read as a natural number of any size, so that what a piece of
//! text denotes does not depend on the width of a machine word.

use vstd::prelude::*;
use vstd::string::StringExecFns;
use crate::text::chars_of;

verus! {

/// Whether `c` is one of the ten decimal digits.
pub open spec fn is_digit(c: char) -> bool {
    '0' <= c <= '9'
}

/// The number that the digit `c` stands for.
pub open spec fn digit_value(c: char) -> nat
    recommends
        is_digit(c),
{
    (c as int - '0' as int) as nat
}

/// The digit that stands for `d`.
pub open spec fn digit_char(d: nat) -> char
    recommends
        d < 10,
{
    ('0' as int + d) as char
}

/// Whether `digits` is a non-empty run of decimal digits.
pub open spec fn is_numeral(digits: Seq<char>) -> bool {
    &&& digits.len() > 0
    &&& forall|i: int| 0 <= i < digits.len() ==> is_digit(#[trigger] digits[i])
}

/// The number that a run of decimal digits denotes: a single digit stands for
/// itself, and each digit counts ten times what the one behind it counts.
pub open spec fn numeral_value(digits: Seq<char>) -> nat
    decreases digits.len(),
{
    if digits.len() == 0 {
        0
    } else if digits.len() == 1 {
        digit_value(digits.last())
    } else {
        10 * numeral_value(digits.drop_last()) + digit_value(digits.last())
    }
}

/// `s` without the one plus sign that may stand before a numeral.
pub open spec fn unsigned_part(s: Seq<char>) -> Seq<char> {
    if s.len() > 0 && s.first() == '+' {
        s.drop_first()
    } else {
        s
    }
}

/// The number that `s` denotes: `s` is an optional plus sign followed by one
/// or more decimal digits and nothing else. Any other text denotes nothing.
pub open spec fn parse_number(s: Seq<char>) -> Option<nat> {
    if is_numeral(unsigned_part(s)) {
        Some(numeral_value(unsigned_part(s)))
    } else {
        None
    }
}

/// The decimal numeral of `n`, without sign or leading zeros.
pub open spec fn decimal(n: nat) -> Seq<char>
    decreases n,
{
    if n < 10 {
        seq![digit_char(n)]
    } else {
        decimal(n / 10).push(digit_char(n % 10))
    }
}

/// A number read from text, as far as a machine word can hold it.
#[derive(Debug, Clone, Copy, PartialEq, Eq, Structural)]
pub enum Magnitude {
    /// The number itself.
    Fits(usize),
    /// A number greater than every `usize`.
    Exceeds,
}

impl Magnitude {
    /// Whether this is what reading a numeral of value `n` gives.
    pub open spec fn holds(self, n: nat) -> bool {
        match self {
            Magnitude::Fits(v) => v == n,
            Magnitude::Exceeds => n > usize::MAX,
        }
    }
}

/// Reads the number that `s` denotes.
///
/// `None` where `s` is no numeral; `Exceeds` where it is one whose value no
/// `usize` holds.
pub fn read_number(s: &str) -> (read: Option<Magnitude>)
    ensures
        match parse_number(s@) {
            Some(n) => read is Some && read->0.holds(n),
            None => read is None,
        },
{
    let chars = chars_of(s);
    let n = chars.len();
    let start: usize = if n > 0 && chars[0] == '+' {
        1
    } else {
        0
    };
    if start == n {
        return None;
    }
    let ghost digits = unsigned_part(s@);
    let mut value: usize = 0;
    let mut exceeds = false;
    let mut i: usize = start;
    while i < n
        invariant
            start <= i <= n,
            n == chars@.len(),
            digits == unsigned_part(s@),
            digits == chars@.subrange(start as int, n as int),
            forall|k: int| 0 <= k < i - start ==> is_digit(#[trigger] digits[k]),
            !exceeds ==> value == numeral_value(digits.take(i - start)),
            exceeds ==> numeral_value(digits.take(i - start)) > usize::MAX,
        decreases n - i,
    {
        let c = chars[i];
        if !('0' <= c && c <= '9') {
            assert(!is_digit(digits[i - start]));
            return None;
        }
        let d: usize = (c as u32 - '0' as u32) as usize;
        assert(digits.take(i - start + 1).drop_last() =~= digits.take(i - start));
        if !exceeds {
            if value > (usize::MAX - d) / 10 {
                exceeds = true;
            } else {
                value = value * 10 + d;
            }
        }
        i += 1;
    }
    assert(digits.take(n - start) =~= digits);
    if exceeds {
        Some(Magnitude::Exceeds)
    } else {
        Some(Magnitude::Fits(value))
    }
}

/// Writes `n` as a decimal numeral.
pub fn write_number(n: usize) -> (text: String)
    ensures
        text@ == decimal(n as nat),
    decreases n,
{
    let digits = "0123456789";
    proof {
        reveal_strlit("0123456789");
    }
    let last = digits.substring_char(n % 10, n % 10 + 1);
    if n < 10 {
        last.to_owned()
    } else {
        let mut text = write_number(n / 10);
        text.append(last);
        text
    }
}

/// A numeral written by `decimal` is made of digits only.
pub proof fn lemma_decimal_is_numeral(n: nat)
    ensures
        is_numeral(decimal(n)),
        decimal(n).first() != '+',
    decreases n,
{
    if n >= 10 {
        lemma_decimal_is_numeral(n / 10);
    }
}

/// Reading what `decimal` wrote gives the number back.
pub proof fn lemma_decimal_round_trip(n: nat)
    ensures
        parse_number(decimal(n)) == Some(n),
{
    lemma_decimal_is_numeral(n);
    lemma_decimal_value(n);
}

proof fn lemma_decimal_value(n: nat)
    ensures
        numeral_value(decimal(n)) == n,
    decreases n,
{
    if n >= 10 {
        lemma_decimal_value(n / 10);
        assert(decimal(n).drop_last() =~= decimal(n / 10));
    }
}

} // verus!
