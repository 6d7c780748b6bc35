//! What this library takes from the crate `currency`: the amount type, its
//! reading from text, its copy and its equality. Each contract on an item of
//! that crate says what the crate's source shows, and is not proved.
//!
//! The crate reads almost every text as an amount. The few that it does not
//! read are told apart here, by `is_readable_amount`, before it is called.

use currency::{Currency, ParseCurrencyError};
use vstd::prelude::*;

verus! {

/// `currency::Currency`: an amount with an optional symbol.
#[verifier::external_type_specification]
#[verifier::external_body]
pub struct ExCurrency(Currency);

/// `currency::ParseCurrencyError`: what `Currency::from_str` reports.
#[verifier::external_type_specification]
#[verifier::external_body]
pub struct ExParseCurrencyError(ParseCurrencyError);

/// The amount that the crate reads from `text`.
pub uninterp spec fn amount_of(text: Seq<char>) -> Currency;

/// One of the ten decimal digits.
pub open spec fn is_amount_digit(c: char) -> bool {
    '0' <= c <= '9'
}

/// One of the two characters that part the groups of digits.
pub open spec fn is_amount_delimiter(c: char) -> bool {
    c == '.' || c == ','
}

/// `text` holds a delimiter.
pub open spec fn has_amount_delimiter(text: Seq<char>) -> bool {
    exists|at: int| 0 <= at < text.len() && is_amount_delimiter(#[trigger] text[at])
}

/// How many digits stand behind the last delimiter of `text`; in a text
/// without one, how many digits it holds.
pub open spec fn trailing_digits(text: Seq<char>) -> nat
    decreases text.len(),
{
    if text.len() == 0 || is_amount_delimiter(text.last()) {
        0
    } else if is_amount_digit(text.last()) {
        trailing_digits(text.drop_last()) + 1
    } else {
        trailing_digits(text.drop_last())
    }
}

/// A `-` stands somewhere behind a digit of `text`.
pub open spec fn has_minus_after_digit(text: Seq<char>) -> bool {
    exists|digit: int, minus: int|
        0 <= digit < minus < text.len() && is_amount_digit(#[trigger] text[digit])
            && #[trigger] text[minus] == '-'
}

/// The most digits that may stand behind the last delimiter.
pub const MAX_TRAILING_DIGITS: u64 = 11;

/// The texts that the crate reads as an amount. A `-` counts as the sign
/// only before the first digit; behind a digit the crate refuses the text.
/// It scales the amount by a power of ten that it holds in 32 bits, which
/// bounds the digits behind the last delimiter, and it counts the digits in
/// 32 bits, which bounds the text.
pub open spec fn amount_text_readable(text: Seq<char>) -> bool {
    &&& text.len() <= u32::MAX
    &&& !has_minus_after_digit(text)
    &&& has_amount_delimiter(text) ==> trailing_digits(text) <= MAX_TRAILING_DIGITS
}

/// What reading `text` gives: its amount, or nothing where it is not readable.
pub open spec fn amount_read(text: Seq<char>) -> Option<Currency> {
    if amount_text_readable(text) {
        Some(amount_of(text))
    } else {
        None
    }
}

/// `Currency::from_str`. On a readable text the crate returns an amount, and
/// the same amount whenever it is given the same text. Other texts it
/// refuses, after printing them, or cannot scale; they are not handed to it.
pub assume_specification[ Currency::from_str ](s: &str) -> (result: Result<
    Currency,
    ParseCurrencyError,
>)
    requires
        amount_text_readable(s@),
    ensures
        result is Ok,
        result->Ok_0 == amount_of(s@),
;

/// `Currency::clone`, derived: the copy holds the symbol and the number of
/// the amount it was made of.
pub assume_specification[ <Currency as Clone>::clone ](amount: &Currency) -> (copy: Currency)
    ensures
        copy == *amount,
;

/// `Currency::eq`, derived: two amounts are equal where their symbols and
/// their amounts are.
#[verifier::external_body]
pub(crate) fn same_amount(left: &Currency, right: &Currency) -> (same: bool)
    ensures
        same == (*left == *right),
{
    left == right
}

/// `text` holds a digit.
pub open spec fn has_amount_digit(text: Seq<char>) -> bool {
    exists|at: int| 0 <= at < text.len() && is_amount_digit(#[trigger] text[at])
}

/// A text with one more character holds a delimiter where the text did, or
/// where the character is one.
proof fn lemma_delimiter_with_one_more(text: Seq<char>, c: char)
    ensures
        has_amount_delimiter(text.push(c)) == (has_amount_delimiter(text)
            || is_amount_delimiter(c)),
{
    let longer = text.push(c);
    if has_amount_delimiter(text) {
        let at = choose|at: int| 0 <= at < text.len() && is_amount_delimiter(#[trigger] text[at]);
        assert(is_amount_delimiter(longer[at]));
    }
    if is_amount_delimiter(c) {
        assert(is_amount_delimiter(longer[text.len() as int]));
    }
    if has_amount_delimiter(longer) {
        let at = choose|at: int|
            0 <= at < longer.len() && is_amount_delimiter(#[trigger] longer[at]);
        if at < text.len() {
            assert(is_amount_delimiter(text[at]));
        }
    }
}

/// A text with one more character holds a digit where the text did, or where
/// the character is one.
proof fn lemma_digit_with_one_more(text: Seq<char>, c: char)
    ensures
        has_amount_digit(text.push(c)) == (has_amount_digit(text) || is_amount_digit(c)),
{
    let longer = text.push(c);
    if has_amount_digit(text) {
        let at = choose|at: int| 0 <= at < text.len() && is_amount_digit(#[trigger] text[at]);
        assert(is_amount_digit(longer[at]));
    }
    if is_amount_digit(c) {
        assert(is_amount_digit(longer[text.len() as int]));
    }
    if has_amount_digit(longer) {
        let at = choose|at: int| 0 <= at < longer.len() && is_amount_digit(#[trigger] longer[at]);
        if at < text.len() {
            assert(is_amount_digit(text[at]));
        }
    }
}

/// A text with one more character holds a `-` behind a digit where the text
/// did, or where the character is a `-` and the text holds a digit.
proof fn lemma_minus_with_one_more(text: Seq<char>, c: char)
    ensures
        has_minus_after_digit(text.push(c)) == (has_minus_after_digit(text) || (c == '-'
            && has_amount_digit(text))),
{
    let longer = text.push(c);
    if has_minus_after_digit(text) {
        let (digit, minus) = choose|digit: int, minus: int|
            0 <= digit < minus < text.len() && is_amount_digit(#[trigger] text[digit])
                && #[trigger] text[minus] == '-';
        assert(is_amount_digit(longer[digit]) && longer[minus] == '-');
    }
    if c == '-' && has_amount_digit(text) {
        let digit = choose|at: int| 0 <= at < text.len() && is_amount_digit(#[trigger] text[at]);
        assert(is_amount_digit(longer[digit]) && longer[text.len() as int] == '-');
    }
    if has_minus_after_digit(longer) {
        let (digit, minus) = choose|digit: int, minus: int|
            0 <= digit < minus < longer.len() && is_amount_digit(#[trigger] longer[digit])
                && #[trigger] longer[minus] == '-';
        if minus < text.len() {
            assert(is_amount_digit(text[digit]) && text[minus] == '-');
        } else {
            assert(is_amount_digit(text[digit]));
        }
    }
}

/// Decides `amount_text_readable` in one pass over the characters.
pub fn is_readable_amount(text: &str) -> (readable: bool)
    ensures
        readable == amount_text_readable(text@),
{
    let mut length: u64 = 0;
    let mut too_long = false;
    let mut digit_seen = false;
    let mut minus_after_digit = false;
    let mut delimiter_seen = false;
    // The digits behind the last delimiter, counted no further than one past the bound.
    let mut trailing: u64 = 0;
    for c in it: text.chars()
        invariant
            it.seq() == text@,
            length <= u32::MAX,
            too_long == (it.index() > u32::MAX),
            !too_long ==> length == it.index(),
            digit_seen == has_amount_digit(text@.take(it.index())),
            minus_after_digit == has_minus_after_digit(text@.take(it.index())),
            delimiter_seen == has_amount_delimiter(text@.take(it.index())),
            trailing <= MAX_TRAILING_DIGITS + 1,
            trailing <= MAX_TRAILING_DIGITS ==> trailing == trailing_digits(
                text@.take(it.index()),
            ),
            trailing > MAX_TRAILING_DIGITS ==> trailing_digits(text@.take(it.index()))
                > MAX_TRAILING_DIGITS,
    {
        proof {
            let seen = text@.take(it.index());
            assert(text@.take(it.index() + 1) == seen.push(c));
            assert(seen.push(c).drop_last() == seen);
            lemma_delimiter_with_one_more(seen, c);
            lemma_digit_with_one_more(seen, c);
            lemma_minus_with_one_more(seen, c);
        }
        if length < 0xffff_ffff {
            length = length + 1;
        } else {
            too_long = true;
        }
        if c == '-' && digit_seen {
            minus_after_digit = true;
        }
        if c == '.' || c == ',' {
            delimiter_seen = true;
            trailing = 0;
        } else if '0' <= c && c <= '9' {
            digit_seen = true;
            if trailing <= MAX_TRAILING_DIGITS {
                trailing = trailing + 1;
            }
        }
    }
    assert(text@.take(text@.len() as int) == text@);
    !too_long && !minus_after_digit && (!delimiter_seen || trailing <= MAX_TRAILING_DIGITS)
}

/// Reads `text` as an amount where the crate can.
pub fn read_amount(text: &str) -> (amount: Option<Currency>)
    ensures
        amount == amount_read(text@),
{
    if is_readable_amount(text) {
        match Currency::from_str(text) {
            Ok(amount) => Some(amount),
            Err(_) => None,
        }
    } else {
        None
    }
}

} // verus!
