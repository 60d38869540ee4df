//! Choosing a port from a listing by a line of text.
//!
//! The line is read as an index into the listing, as a person would type
//! it: white space around it is ignored, and what is left must be a decimal
//! number, with or without a plus sign, that is smaller than the number of
//! ports on offer.

use vstd::prelude::*;
use crate::port::{DmxPort, SerialSettings};
use crate::registry::{Port, PortListing};

verus! {

/// Why a line of text is no number.
#[derive(Clone, Copy, Debug, PartialEq, Eq, Structural)]
pub enum ParseFailure {
    /// Nothing is left of the line without its white space.
    Empty,
    /// A character that is no decimal digit stands where one is needed.
    InvalidDigit,
    /// The number does not fit into a `usize`.
    TooLarge,
}

/// Why a line of text chooses no port, so that the user is asked again.
#[derive(Clone, Copy, Debug, PartialEq, Eq, Structural)]
pub enum Retry {
    /// The line is no number.
    NotAnInteger(ParseFailure),
    /// The number is no index into the listing, which has this many ports.
    OutOfRange(usize),
}

/// Whether `c` is white space: one of the characters that Unicode gives the
/// property `White_Space`.
pub open spec fn is_space(c: char) -> bool {
    let code = c as u32;
    ||| 0x09 <= code <= 0x0D
    ||| code == 0x20
    ||| code == 0x85
    ||| code == 0xA0
    ||| code == 0x1680
    ||| 0x2000 <= code <= 0x200A
    ||| code == 0x2028
    ||| code == 0x2029
    ||| code == 0x202F
    ||| code == 0x205F
    ||| code == 0x3000
}

/// Whether `c` is one of the decimal digits `0` to `9`.
pub open spec fn is_digit(c: char) -> bool {
    0x30 <= c as u32 <= 0x39
}

/// The value of the decimal digit `c`.
pub open spec fn digit_value(c: char) -> nat {
    (c as u32 - 0x30) as nat
}

/// Whether `text` holds decimal digits only.
pub open spec fn all_digits(text: Seq<char>) -> bool {
    forall|i: int| 0 <= i < text.len() ==> is_digit(#[trigger] text[i])
}

/// The number that the decimal digits `digits` write.
pub open spec fn decimal(digits: Seq<char>) -> nat
    decreases digits.len(),
{
    if digits.len() == 0 {
        0
    } else {
        10 * decimal(digits.drop_last()) + digit_value(digits.last())
    }
}

/// The index of the first character of `text` at or after `from` that is no
/// white space, or the length of `text` where there is none.
pub open spec fn skip_spaces(text: Seq<char>, from: int) -> int
    decreases text.len() - from,
{
    if 0 <= from < text.len() && is_space(text[from]) {
        skip_spaces(text, from + 1)
    } else {
        from
    }
}

/// The index behind the last character of `text` before `to` that is no
/// white space, or `floor` where there is none behind `floor`.
pub open spec fn drop_spaces(text: Seq<char>, floor: int, to: int) -> int
    decreases to,
{
    if 0 <= floor < to <= text.len() && is_space(text[to - 1]) {
        drop_spaces(text, floor, to - 1)
    } else {
        to
    }
}

/// `text` without the white space at its start and at its end.
pub open spec fn trimmed(text: Seq<char>) -> Seq<char> {
    let start = skip_spaces(text, 0);
    let end = drop_spaces(text, start, text.len() as int);
    text.subrange(start, end)
}

/// `text` without a plus sign at its start.
pub open spec fn unsigned(text: Seq<char>) -> Seq<char> {
    if text.len() > 0 && text[0] == '+' {
        text.drop_first()
    } else {
        text
    }
}

/// Whether reading `digits` from the left meets a number that is too large
/// before it meets a character that is no digit.
pub open spec fn overflows(digits: Seq<char>) -> bool {
    exists|n: int|
        0 <= n <= digits.len() && all_digits(#[trigger] digits.take(n)) && decimal(digits.take(n))
            > usize::MAX
}

/// The number that `text` writes, or why it writes none. Reading stops at
/// the first character that is no digit or makes the number too large,
/// whichever comes first from the left.
pub open spec fn parsed(text: Seq<char>) -> Result<usize, ParseFailure> {
    let digits = unsigned(trimmed(text));
    if trimmed(text).len() == 0 {
        Err(ParseFailure::Empty)
    } else if digits.len() == 0 {
        Err(ParseFailure::InvalidDigit)
    } else if overflows(digits) {
        Err(ParseFailure::TooLarge)
    } else if !all_digits(digits) {
        Err(ParseFailure::InvalidDigit)
    } else {
        Ok(decimal(digits) as usize)
    }
}

/// What a line of text chooses from a listing of `count` ports: the index
/// that it writes, where that is the index of a port, or the reason to ask
/// again.
pub open spec fn choice(text: Seq<char>, count: nat) -> Result<usize, Retry> {
    match parsed(text) {
        Err(failure) => Err(Retry::NotAnInteger(failure)),
        Ok(index) => if index < count {
            Ok(index)
        } else {
            Err(Retry::OutOfRange(count as usize))
        },
    }
}

impl ParseFailure {
    /// The failure in words.
    pub fn description(&self) -> (text: &'static str)
        ensures
            text@ == match self {
                ParseFailure::Empty => "cannot parse integer from empty string"@,
                ParseFailure::InvalidDigit => "invalid digit found in string"@,
                ParseFailure::TooLarge => "number too large to fit in target type"@,
            },
    {
        match self {
            ParseFailure::Empty => "cannot parse integer from empty string",
            ParseFailure::InvalidDigit => "invalid digit found in string",
            ParseFailure::TooLarge => "number too large to fit in target type",
        }
    }
}

/// The characters of `input`, in order.
fn chars_of(input: &str) -> (chars: Vec<char>)
    ensures
        chars@ == input@,
{
    let mut chars: Vec<char> = Vec::new();
    for c in it: input.chars()
        invariant
            it.seq() == input@,
            chars@ == it.seq().take(it.index() as int),
    {
        chars.push(c);
    }
    chars
}

fn is_white_space(c: char) -> (b: bool)
    ensures
        b == is_space(c),
{
    let code: u32 = c as u32;
    (0x09 <= code && code <= 0x0D) || code == 0x20 || code == 0x85 || code == 0xA0 || code
        == 0x1680 || (0x2000 <= code && code <= 0x200A) || code == 0x2028 || code == 0x2029
        || code == 0x202F || code == 0x205F || code == 0x3000
}

/// One more digit: the number that `digits` writes up to and with the digit
/// at `n` is ten times the number before it, plus that digit.
proof fn lemma_decimal_step(digits: Seq<char>, n: int)
    requires
        0 <= n < digits.len(),
    ensures
        decimal(digits.take(n + 1)) == 10 * decimal(digits.take(n)) + digit_value(digits[n]),
{
    assert(digits.take(n + 1).drop_last() =~= digits.take(n));
    assert(digits.take(n + 1).last() == digits[n]);
}

/// A character that is no digit ends every run of digits that reaches it.
proof fn lemma_no_digits_beyond(digits: Seq<char>, at: int)
    requires
        0 <= at < digits.len(),
        !is_digit(digits[at]),
    ensures
        forall|n: int| at < n <= digits.len() ==> !all_digits(#[trigger] digits.take(n)),
        !all_digits(digits),
{
    assert forall|n: int| at < n <= digits.len() implies !all_digits(
        #[trigger] digits.take(n),
    ) by {
        assert(digits.take(n)[at] == digits[at]);
    }
}

/// Reads `input` as an index: a decimal number, with or without a plus sign
/// before it and with any white space around it.
pub fn parse_index(input: &str) -> (r: Result<usize, ParseFailure>)
    ensures
        r == parsed(input@),
{
    let chars = chars_of(input);
    let len: usize = chars.len();
    let mut start: usize = 0;
    while start < len && is_white_space(chars[start])
        invariant
            start <= len,
            len == chars@.len(),
            skip_spaces(chars@, 0) == skip_spaces(chars@, start as int),
        decreases len - start,
    {
        start += 1;
    }
    let mut end: usize = len;
    while end > start && is_white_space(chars[end - 1])
        invariant
            start <= end <= len,
            len == chars@.len(),
            drop_spaces(chars@, start as int, len as int) == drop_spaces(
                chars@,
                start as int,
                end as int,
            ),
        decreases end,
    {
        end -= 1;
    }
    assert(trimmed(chars@) == chars@.subrange(start as int, end as int));
    if start == end {
        return Err(ParseFailure::Empty);
    }
    let first: usize = if chars[start] == '+' {
        start + 1
    } else {
        start
    };
    let ghost digits = chars@.subrange(first as int, end as int);
    assert(unsigned(trimmed(chars@)) =~= digits);
    if first == end {
        return Err(ParseFailure::InvalidDigit);
    }
    let mut value: usize = 0;
    let mut i: usize = first;
    assert(digits.take(0) =~= Seq::<char>::empty());
    while i < end
        invariant
            first <= i <= end <= len,
            len == chars@.len(),
            digits == chars@.subrange(first as int, end as int),
            all_digits(digits.take(i - first)),
            value == decimal(digits.take(i - first)),
            forall|n: int|
                0 <= n <= i - first && all_digits(#[trigger] digits.take(n)) ==> decimal(
                    digits.take(n),
                ) <= usize::MAX,
            chars@ == input@,
            unsigned(trimmed(chars@)) == digits,
            trimmed(chars@).len() > 0,
            digits.len() > 0,
        decreases end - i,
    {
        let c: char = chars[i];
        let code: u32 = c as u32;
        let ghost at = i - first;
        assert(digits[at] == c);
        if !(0x30 <= code && code <= 0x39) {
            proof {
                lemma_no_digits_beyond(digits, at);
                assert(!overflows(digits));
            }
            return Err(ParseFailure::InvalidDigit);
        }
        let digit: usize = (code - 0x30) as usize;
        proof {
            lemma_decimal_step(digits, at);
            assert forall|k: int| 0 <= k < at + 1 implies is_digit(
                #[trigger] digits.take(at + 1)[k],
            ) by {
                if k < at {
                    assert(digits.take(at)[k] == digits.take(at + 1)[k]);
                }
            }
        }
        let next: Option<usize> = match value.checked_mul(10) {
            Some(tens) => tens.checked_add(digit),
            None => None,
        };
        match next {
            Some(sum) => {
                value = sum;
            },
            None => {
                assert(overflows(digits));
                return Err(ParseFailure::TooLarge);
            },
        }
        i += 1;
    }
    assert(digits.take(digits.len() as int) =~= digits);
    assert(!overflows(digits)) by {
        assert forall|n: int| 0 <= n <= digits.len() && all_digits(
            #[trigger] digits.take(n),
        ) implies decimal(digits.take(n)) <= usize::MAX by {}
    }
    Ok(value)
}

/// Reads `input` as the index of one of `count` ports.
pub fn chosen_index(input: &str, count: usize) -> (r: Result<usize, Retry>)
    ensures
        r == choice(input@, count as nat),
{
    match parse_index(input) {
        Err(failure) => Err(Retry::NotAnInteger(failure)),
        Ok(index) => {
            if index < count {
                Ok(index)
            } else {
                Err(Retry::OutOfRange(count))
            }
        },
    }
}

/// Takes from `ports` the port that `input` chooses and starts to open it.
/// With the port comes the link that the caller has to establish before the
/// port is open, if any, as `open` gives it. The last port of the listing
/// moves to the place of the one taken. Where `input` chooses no port the
/// listing stays as it is, and the result says why.
pub fn select_port(ports: &mut PortListing, input: &str) -> (r: Result<
    (Port, Option<SerialSettings>),
    Retry,
>)
    ensures
        match choice(input@, old(ports)@.len()) {
            Ok(index) => {
                &&& r is Ok
                &&& r->Ok_0.0@ == old(ports)@[index as int]@.after_open()
                &&& match r->Ok_0.1 {
                    Some(settings) => old(ports)@[index as int]@.open_request() == Some(
                        settings@,
                    ),
                    None => old(ports)@[index as int]@.open_request() is None,
                }
                &&& final(ports)@ == old(ports)@.update(
                    index as int,
                    old(ports)@.last(),
                ).drop_last()
            },
            Err(retry) => {
                &&& r == Err::<(Port, Option<SerialSettings>), Retry>(retry)
                &&& final(ports)@ == old(ports)@
            },
        },
{
    match chosen_index(input, ports.len()) {
        Ok(index) => {
            let mut port = ports.swap_remove(index);
            let request = port.open();
            Ok((port, request))
        },
        Err(retry) => Err(retry),
    }
}

} // verus!
