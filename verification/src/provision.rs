//! The textual identifier under which the remote service knows a device,
//! written and read.
//!
//! An identifier is `<model>-<number>`: the model's name, a hyphen and the
//! serial number in decimal digits. The service answers a request for a new
//! device with the identifier that it allocated.

use vstd::prelude::*;
use vstd::string::{StrSliceExecFns, StringExecFns};
use crate::device::{Device, Model};
use crate::error::{AppError, MenuError};

verus! {

/// `c` is one of the ten decimal digits.
pub open spec fn is_digit(c: char) -> bool {
    '0' <= c <= '9'
}

/// The number that a decimal digit stands for.
pub open spec fn digit_value(c: char) -> nat {
    if is_digit(c) {
        (c as u32 - '0' as u32) as nat
    } else {
        0
    }
}

/// Every character of `text` is a decimal digit.
pub open spec fn all_digits(text: Seq<char>) -> bool {
    forall|i: int| 0 <= i < text.len() ==> is_digit(#[trigger] text[i])
}

/// The number that a sequence of decimal digits denotes, most significant
/// digit first.
pub open spec fn decimal(text: Seq<char>) -> nat
    decreases text.len(),
{
    if text.len() == 0 {
        0
    } else {
        decimal(text.drop_last()) * 10 + digit_value(text.last())
    }
}

/// `text` is a serial number: one decimal digit or more, denoting a number
/// that a `u64` can hold. Leading zeros are allowed, a sign is not.
pub open spec fn is_number(text: Seq<char>) -> bool {
    &&& text.len() > 0
    &&& all_digits(text)
    &&& decimal(text) <= u64::MAX
}

/// What stands before the serial number in an identifier of `model`.
pub open spec fn identifier_prefix(model: Model) -> Seq<char> {
    model.name_text().push('-')
}

/// The device that `text` identifies as one of `model`, if it identifies
/// any.
pub open spec fn identified(model: Model, text: Seq<char>) -> Option<Device> {
    let prefix = identifier_prefix(model);
    if prefix.len() <= text.len() && text.subrange(0, prefix.len() as int) == prefix && is_number(
        text.subrange(prefix.len() as int, text.len() as int),
    ) {
        Some(
            Device {
                model,
                number: decimal(text.subrange(prefix.len() as int, text.len() as int)) as u64,
            },
        )
    } else {
        None
    }
}

/// Appending a digit multiplies by ten and adds the digit.
pub proof fn lemma_decimal_push(text: Seq<char>, c: char)
    ensures
        decimal(text.push(c)) == decimal(text) * 10 + digit_value(c),
{
    assert(text.push(c).drop_last() == text);
}

/// A number is at least as large as what any of its leading digits denote.
pub proof fn lemma_decimal_prefix(text: Seq<char>, n: int)
    requires
        0 <= n <= text.len(),
    ensures
        decimal(text.take(n)) <= decimal(text),
    decreases text.len(),
{
    if n == text.len() {
        assert(text.take(n) == text);
    } else {
        lemma_decimal_prefix(text.drop_last(), n);
        assert(text.drop_last().take(n) == text.take(n));
    }
}

fn invalid_response(response: &str) -> (error: AppError)
    ensures
        error matches AppError::Menu(MenuError::InvalidResponse(text)) && text@ == response@,
{
    AppError::Menu(MenuError::InvalidResponse(String::from_str(response)))
}

/// Reads the answer of the remote service to a request for a new device of
/// `model`.
///
/// Succeeds exactly on the model's name, a hyphen and a serial number.
/// Every other answer fails with `InvalidResponse`, which carries the answer
/// as it came.
pub fn provisioned_device(model: Model, response: &str) -> (outcome: Result<Device, AppError>)
    ensures
        match identified(model, response@) {
            Some(device) => outcome == Ok::<Device, AppError>(device),
            None => outcome matches Err(AppError::Menu(MenuError::InvalidResponse(text)))
                && text@ == response@,
        },
{
    let name = model.name();
    let length = response.unicode_len();
    let name_length = name.unicode_len();
    let ghost text = response@;
    let ghost prefix = identifier_prefix(model);
    if length <= name_length {
        return Err(invalid_response(response));
    }
    let mut i: usize = 0;
    while i < name_length
        invariant
            i <= name_length < length,
            length == text.len(),
            name_length == name@.len(),
            text == response@,
            name@ == model.name_text(),
            prefix == identifier_prefix(model),
            forall|j: int| 0 <= j < i ==> text[j] == name@[j],
        decreases name_length - i,
    {
        if response.get_char(i) != name.get_char(i) {
            assert(text.subrange(0, prefix.len() as int)[i as int] != prefix[i as int]);
            return Err(invalid_response(response));
        }
        i += 1;
    }
    if response.get_char(name_length) != '-' {
        assert(text.subrange(0, prefix.len() as int)[name_length as int]
            != prefix[name_length as int]);
        return Err(invalid_response(response));
    }
    assert(text.subrange(0, prefix.len() as int) == prefix);
    let start: usize = name_length + 1;
    let ghost digits = text.subrange(start as int, length as int);
    if start == length {
        return Err(invalid_response(response));
    }
    let mut number: u64 = 0;
    let mut at: usize = start;
    while at < length
        invariant
            start <= at <= length,
            length == text.len(),
            text == response@,
            prefix == identifier_prefix(model),
            start == prefix.len(),
            digits == text.subrange(start as int, length as int),
            all_digits(digits.take(at - start)),
            number == decimal(digits.take(at - start)),
        decreases length - at,
    {
        let c = response.get_char(at);
        if c < '0' || c > '9' {
            assert(!is_digit(digits[at - start]));
            return Err(invalid_response(response));
        }
        let digit: u64 = (c as u32 - '0' as u32) as u64;
        proof {
            assert(digits.take(at - start + 1) == digits.take(at - start).push(c));
            lemma_decimal_push(digits.take(at - start), c);
            lemma_decimal_prefix(digits, at - start + 1);
        }
        if number > (u64::MAX - digit) / 10 {
            return Err(invalid_response(response));
        }
        number = number * 10 + digit;
        at += 1;
    }
    assert(digits.take(length - start) == digits);
    Ok(Device { model, number })
}

/// The character that stands for a digit's value.
pub open spec fn digit_char(value: nat) -> char {
    if value == 0 {
        '0'
    } else if value == 1 {
        '1'
    } else if value == 2 {
        '2'
    } else if value == 3 {
        '3'
    } else if value == 4 {
        '4'
    } else if value == 5 {
        '5'
    } else if value == 6 {
        '6'
    } else if value == 7 {
        '7'
    } else if value == 8 {
        '8'
    } else {
        '9'
    }
}

/// The decimal digits of `number`, without leading zeros.
pub open spec fn decimal_text(number: nat) -> Seq<char>
    decreases number,
{
    if number < 10 {
        seq![digit_char(number)]
    } else {
        decimal_text(number / 10).push(digit_char(number % 10))
    }
}

/// The identifier of `device`.
pub open spec fn identifier_text(device: Device) -> Seq<char> {
    identifier_prefix(device.model) + decimal_text(device.number as nat)
}

/// The digits written for a number are digits, and they denote it.
pub proof fn lemma_decimal_text(number: nat)
    ensures
        decimal_text(number).len() > 0,
        all_digits(decimal_text(number)),
        decimal(decimal_text(number)) == number,
    decreases number,
{
    if number < 10 {
        let text = decimal_text(number);
        assert(text.drop_last() == Seq::<char>::empty());
        assert(decimal(text.drop_last()) == 0);
        assert(text.last() == digit_char(number));
    } else {
        lemma_decimal_text(number / 10);
        lemma_decimal_push(decimal_text(number / 10), digit_char(number % 10));
    }
}

/// Reading an identifier that was written for a device gives that device
/// back.
pub proof fn lemma_identifier_round_trip(device: Device)
    ensures
        identified(device.model, identifier_text(device)) == Some(device),
{
    let prefix = identifier_prefix(device.model);
    let digits = decimal_text(device.number as nat);
    let text = identifier_text(device);
    lemma_decimal_text(device.number as nat);
    assert(text.subrange(0, prefix.len() as int) == prefix);
    assert(text.subrange(prefix.len() as int, text.len() as int) == digits);
}

fn digit_text(value: u64) -> (text: &'static str)
    requires
        value < 10,
    ensures
        text@ == seq![digit_char(value as nat)],
{
    proof {
        reveal_strlit("0");
        reveal_strlit("1");
        reveal_strlit("2");
        reveal_strlit("3");
        reveal_strlit("4");
        reveal_strlit("5");
        reveal_strlit("6");
        reveal_strlit("7");
        reveal_strlit("8");
        reveal_strlit("9");
    }
    let text = if value == 0 {
        "0"
    } else if value == 1 {
        "1"
    } else if value == 2 {
        "2"
    } else if value == 3 {
        "3"
    } else if value == 4 {
        "4"
    } else if value == 5 {
        "5"
    } else if value == 6 {
        "6"
    } else if value == 7 {
        "7"
    } else if value == 8 {
        "8"
    } else {
        "9"
    };
    assert(text@ =~= seq![digit_char(value as nat)]);
    text
}

/// Writes `number` in decimal digits.
pub fn decimal_string(number: u64) -> (text: String)
    ensures
        text@ == decimal_text(number as nat),
    decreases number,
{
    if number < 10 {
        String::from_str(digit_text(number))
    } else {
        let mut text = decimal_string(number / 10);
        text.append(digit_text(number % 10));
        assert(text@ =~= decimal_text(number as nat));
        text
    }
}

impl Device {
    /// Writes the identifier under which the remote service knows the
    /// device.
    pub fn identifier(&self) -> (text: String)
        ensures
            text@ == identifier_text(*self),
    {
        proof {
            reveal_strlit("-");
        }
        let mut text = String::from_str(self.model.name());
        text.append("-");
        let digits = decimal_string(self.number);
        text.append(digits.as_str());
        assert(text@ =~= identifier_text(*self));
        text
    }
}

} // verus!
