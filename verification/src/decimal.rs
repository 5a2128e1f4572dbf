//! Decimal numerals: which texts are numerals, what they denote, and the one
//! canonical numeral of each integer.

use vstd::prelude::*;
use vstd::string::is_ascii_spec_bytes;

verus! {

/// Why a text is no decimal numeral.
#[derive(Clone, Copy, Debug, PartialEq, Eq)]
pub enum ParseError {
    /// Nothing follows the optional sign.
    Empty,
    /// Something other than `0` to `9` follows the optional sign.
    InvalidDigit,
}

impl ParseError {
    /// The words of each error.
    pub open spec fn spec_message(self) -> Seq<char> {
        match self {
            ParseError::Empty => "cannot parse integer from empty string"@,
            ParseError::InvalidDigit => "invalid digit found in string"@,
        }
    }

    /// The error in words.
    pub fn message(&self) -> (text: String)
        ensures
            text@ == self.spec_message(),
    {
        match self {
            ParseError::Empty => "cannot parse integer from empty string".to_owned(),
            ParseError::InvalidDigit => "invalid digit found in string".to_owned(),
        }
    }
}

/// Whether a character is one of `0` to `9`.
pub open spec fn is_digit(c: char) -> bool {
    '0' <= c <= '9'
}

/// The number that a digit stands for.
pub open spec fn digit_value(c: char) -> nat {
    (c as u32 - '0' as u32) as nat
}

/// The character of a digit below ten.
pub open spec fn digit_char(d: nat) -> char {
    (d + 0x30) as u8 as char
}

/// Whether a run of characters holds digits only.
pub open spec fn all_digits(s: Seq<char>) -> bool {
    forall|i: int| 0 <= i < s.len() ==> is_digit(#[trigger] s[i])
}

/// The number that a run of digits denotes, most significant first.
pub open spec fn digits_value(s: Seq<char>) -> nat
    decreases s.len(),
{
    if s.len() == 0 {
        0
    } else {
        digits_value(s.drop_last()) * 10 + digit_value(s.last())
    }
}

/// Whether a text starts with a minus sign.
pub open spec fn has_minus(text: Seq<char>) -> bool {
    text.len() > 0 && text[0] == '-'
}

/// What is left of a text after its optional leading minus sign.
pub open spec fn digits_part(text: Seq<char>) -> Seq<char> {
    if has_minus(text) {
        text.skip(1)
    } else {
        text
    }
}

/// A decimal numeral: an optional minus sign, then one or more digits.
/// Leading zeros are allowed.
pub open spec fn is_decimal_numeral(text: Seq<char>) -> bool {
    digits_part(text).len() > 0 && all_digits(digits_part(text))
}

/// The integer that a decimal numeral denotes.
pub open spec fn decimal_value(text: Seq<char>) -> int {
    if has_minus(text) {
        -(digits_value(digits_part(text)) as int)
    } else {
        digits_value(digits_part(text)) as int
    }
}

/// The canonical numerals: no leading zero but in `0` itself, and no minus
/// sign before zero.
pub open spec fn is_canonical_decimal(text: Seq<char>) -> bool {
    &&& is_decimal_numeral(text)
    &&& digits_part(text).len() == 1 || digits_part(text)[0] != '0'
    &&& has_minus(text) ==> digits_value(digits_part(text)) != 0
}

/// What reading a text as a decimal numeral gives.
pub open spec fn parse_outcome(text: Seq<char>) -> Result<int, ParseError> {
    if digits_part(text).len() == 0 {
        Err(ParseError::Empty)
    } else if !all_digits(digits_part(text)) {
        Err(ParseError::InvalidDigit)
    } else {
        Ok(decimal_value(text))
    }
}

/// The digits of a natural number, without leading zeros.
pub open spec fn nat_digits(n: nat) -> Seq<char>
    decreases n,
{
    if n < 10 {
        seq![digit_char(n)]
    } else {
        nat_digits(n / 10).push(digit_char(n % 10))
    }
}

/// The canonical numeral of an integer.
pub open spec fn decimal_text(x: int) -> Seq<char> {
    if x < 0 {
        seq!['-'] + nat_digits((-x) as nat)
    } else {
        nat_digits(x as nat)
    }
}

/// Each digit below ten has a digit character, which stands for it.
proof fn lemma_digit_char(d: nat)
    requires
        d < 10,
    ensures
        is_digit(digit_char(d)),
        digit_value(digit_char(d)) == d,
        digit_char(d) != '-',
        d != 0 ==> digit_char(d) != '0',
        d == 0 ==> digit_char(d) == '0',
{
}

/// Each digit character stands for a digit below ten, whose character it is.
proof fn lemma_digit_value(c: char)
    requires
        is_digit(c),
    ensures
        digit_value(c) < 10,
        digit_char(digit_value(c)) == c,
        c != '-',
        c == '0' <==> digit_value(c) == 0,
{
}

/// The digits of a number are digits, start with no zero unless the number
/// is zero, and denote the number.
pub proof fn lemma_nat_digits(n: nat)
    ensures
        nat_digits(n).len() >= 1,
        all_digits(nat_digits(n)),
        digits_value(nat_digits(n)) == n,
        nat_digits(n)[0] != '-',
        n == 0 <==> nat_digits(n)[0] == '0',
        n < 10 ==> nat_digits(n).len() == 1,
    decreases n,
{
    if n < 10 {
        lemma_digit_char(n);
        let s = nat_digits(n);
        assert(s.drop_last() =~= Seq::<char>::empty());
        assert(digits_value(s.drop_last()) == 0);
    } else {
        lemma_nat_digits(n / 10);
        lemma_digit_char(n % 10);
        let head = nat_digits(n / 10);
        let s = head.push(digit_char(n % 10));
        assert(s.drop_last() =~= head);
        assert(s.last() == digit_char(n % 10));
        assert(s[0] == head[0]);
    }
}

/// A run of digits that starts with a digit other than zero denotes a
/// positive number.
proof fn lemma_leading_digit(s: Seq<char>)
    requires
        s.len() >= 1,
        all_digits(s),
        s[0] != '0',
    ensures
        digits_value(s) >= 1,
    decreases s.len(),
{
    lemma_digit_value(s.last());
    if s.len() == 1 {
        assert(s.last() == s[0]);
    } else {
        let head = s.drop_last();
        assert(head[0] == s[0]);
        assert(all_digits(head)) by {
            assert forall|i: int| 0 <= i < head.len() implies is_digit(#[trigger] head[i]) by {
                assert(head[i] == s[i]);
            }
        }
        lemma_leading_digit(head);
    }
}

/// A run of digits without a leading zero is the digits of its number.
proof fn lemma_digits_unique(s: Seq<char>)
    requires
        s.len() >= 1,
        all_digits(s),
        s.len() == 1 || s[0] != '0',
    ensures
        s == nat_digits(digits_value(s)),
    decreases s.len(),
{
    let head = s.drop_last();
    lemma_digit_value(s.last());
    if s.len() == 1 {
        assert(head =~= Seq::<char>::empty());
        assert(digits_value(head) == 0);
        assert(s =~= seq![s.last()]);
    } else {
        assert(head[0] == s[0]);
        assert(all_digits(head)) by {
            assert forall|i: int| 0 <= i < head.len() implies is_digit(#[trigger] head[i]) by {
                assert(head[i] == s[i]);
            }
        }
        lemma_leading_digit(head);
        lemma_digits_unique(head);
        let n = digits_value(s);
        assert(n == digits_value(head) * 10 + digit_value(s.last()));
        assert(n / 10 == digits_value(head) && n % 10 == digit_value(s.last()));
        assert(s =~= head.push(s.last()));
    }
}

/// The canonical numeral of an integer is canonical and denotes it.
pub proof fn lemma_decimal_text(x: int)
    ensures
        is_canonical_decimal(decimal_text(x)),
        decimal_value(decimal_text(x)) == x,
{
    if x < 0 {
        let n = (-x) as nat;
        lemma_nat_digits(n);
        let t = decimal_text(x);
        assert(t[0] == '-');
        assert(t.skip(1) =~= nat_digits(n));
    } else {
        lemma_nat_digits(x as nat);
    }
}

/// No integer has two canonical numerals.
pub proof fn lemma_canonical_unique(text: Seq<char>)
    requires
        is_canonical_decimal(text),
    ensures
        text == decimal_text(decimal_value(text)),
{
    let digits = digits_part(text);
    lemma_digits_unique(digits);
    if has_minus(text) {
        assert(text =~= seq!['-'] + digits);
    } else {
        lemma_digit_value(text[0]);
    }
}

/// Reading the canonical numeral of an integer gives the integer back.
pub proof fn lemma_text_round_trip(x: int)
    ensures
        parse_outcome(decimal_text(x)) == Ok::<int, ParseError>(x),
{
    lemma_decimal_text(x);
}

/// A zero before a run of digits leaves its value as it was.
proof fn lemma_zero_before_digits(digits: Seq<char>)
    requires
        all_digits(digits),
    ensures
        all_digits(seq!['0'] + digits),
        digits_value(seq!['0'] + digits) == digits_value(digits),
    decreases digits.len(),
{
    let padded = seq!['0'] + digits;
    assert forall|i: int| 0 <= i < padded.len() implies is_digit(#[trigger] padded[i]) by {
        if i > 0 {
            assert(padded[i] == digits[i - 1]);
        }
    }
    if digits.len() == 0 {
        assert(padded.drop_last() =~= Seq::<char>::empty());
        assert(digits_value(padded.drop_last()) == 0);
    } else {
        let head = digits.drop_last();
        assert forall|i: int| 0 <= i < head.len() implies is_digit(#[trigger] head[i]) by {
            assert(head[i] == digits[i]);
        }
        lemma_zero_before_digits(head);
        assert(padded.drop_last() =~= seq!['0'] + head);
        assert(padded.last() == digits.last());
    }
}

/// A numeral with one more zero in front of its digits, behind the minus
/// sign if it has one.
pub open spec fn with_leading_zero(text: Seq<char>) -> Seq<char> {
    if has_minus(text) {
        seq!['-', '0'] + text.skip(1)
    } else {
        seq!['0'] + text
    }
}

/// Leading zeros change nothing: a numeral with one more zero in front of
/// its digits is a numeral of the same integer.
pub proof fn lemma_leading_zero(text: Seq<char>)
    requires
        is_decimal_numeral(text),
    ensures
        parse_outcome(with_leading_zero(text)) == parse_outcome(text),
{
    let digits = digits_part(text);
    let padded = with_leading_zero(text);
    lemma_zero_before_digits(digits);
    if has_minus(text) {
        assert(padded[0] == '-');
        assert(padded.skip(1) =~= seq!['0'] + digits);
    } else {
        lemma_digit_value(text[0]);
        assert(padded[0] == '0');
        assert(digits_part(padded) =~= seq!['0'] + digits);
    }
}

/// A text with a character outside ASCII holds something that is no digit
/// after its optional sign.
proof fn lemma_not_ascii(text: Seq<char>)
    requires
        !vstd::utf8::is_ascii_chars(text),
    ensures
        parse_outcome(text) == Err::<int, ParseError>(ParseError::InvalidDigit),
{
    let i = choose|i: int| 0 <= i < text.len() && !('\0' <= #[trigger] text[i] <= '\u{7f}');
    let digits = digits_part(text);
    if has_minus(text) {
        assert(digits[i - 1] == text[i]);
        assert(!is_digit(digits[i - 1]));
    } else {
        assert(!is_digit(digits[i]));
    }
}

/// Tells whether a text is a decimal numeral, and if not, why.
pub fn check_numeral(text: &str) -> (r: Result<(), ParseError>)
    ensures
        match r {
            Ok(_) => is_decimal_numeral(text@),
            Err(e) => parse_outcome(text@) == Err::<int, ParseError>(e),
        },
{
    if !text.is_ascii() {
        proof {
            lemma_not_ascii(text@);
        }
        return Err(ParseError::InvalidDigit);
    }
    let bytes = text.as_bytes();
    proof {
        is_ascii_spec_bytes(text);
    }
    let n: usize = bytes.len();
    let start: usize = if n > 0 && bytes[0] == 0x2d { 1 } else { 0 };
    assert(start == 1 <==> has_minus(text@));
    if start == n {
        return Err(ParseError::Empty);
    }
    let ghost digits = digits_part(text@);
    let mut i: usize = start;
    while i < n
        invariant
            start <= i <= n,
            n == text@.len(),
            n == bytes@.len(),
            start <= 1,
            vstd::utf8::is_ascii_chars(text@),
            forall|k: int| 0 <= k < n ==> #[trigger] bytes@[k] == text@[k] as u8,
            digits == digits_part(text@),
            digits.len() == n - start,
            forall|k: int| 0 <= k < digits.len() ==> #[trigger] digits[k] == text@[k + start],
            forall|k: int| 0 <= k < i - start ==> is_digit(#[trigger] digits[k]),
        decreases n - i,
    {
        let b: u8 = bytes[i];
        assert(b == text@[i as int] as u8);
        assert('\0' <= text@[i as int] <= '\u{7f}');
        assert(digits[i - start] == text@[i as int]);
        if b < 0x30 || b > 0x39 {
            assert(!is_digit(digits[i - start]));
            return Err(ParseError::InvalidDigit);
        }
        i += 1;
    }
    Ok(())
}

} // verus!
