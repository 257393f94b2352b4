//! The texts that cross into the engine and back: the instance id as
//! decimal digits, and the two scripts that the worker runs on its own
//! account.

use vstd::prelude::*;

verus! {

/// The code of `+`.
pub const PLUS: u8 = 43;

/// The code of `0`.
pub const ZERO: u8 = 48;

/// The code of `9`.
pub const NINE: u8 = 57;

/// The character of a decimal digit.
pub open spec fn digit(d: nat) -> char
    recommends
        d < 10,
{
    (ZERO + d) as char
}

pub open spec fn is_digit(c: char) -> bool {
    '0' <= c <= '9'
}

/// The number that a decimal digit stands for.
pub open spec fn digit_value(c: char) -> nat
    recommends
        is_digit(c),
{
    (c as int - ZERO) as nat
}

/// A number in decimal digits, without sign and without leading zeros.
pub open spec fn decimal(n: nat) -> Seq<char>
    decreases n,
{
    if n < 10 {
        seq![digit(n)]
    } else {
        decimal(n / 10).push(digit(n % 10))
    }
}

pub open spec fn all_digits(text: Seq<char>) -> bool {
    forall|i: int| 0 <= i < text.len() ==> is_digit(#[trigger] text[i])
}

/// The number that a run of digits stands for.
pub open spec fn digits_value(text: Seq<char>) -> nat
    decreases text.len(),
{
    if text.len() == 0 {
        0
    } else {
        digits_value(text.drop_last()) * 10 + digit_value(text.last())
    }
}

/// The digits of an instance id as it is written: what is left after one
/// optional `+`.
pub open spec fn unsigned_part(text: Seq<char>) -> Seq<char> {
    if text.len() > 0 && text[0] == '+' {
        text.drop_first()
    } else {
        text
    }
}

/// The instance id that a text names: an optional `+`, then at least one
/// decimal digit and nothing else, with a value that a `usize` holds.
pub open spec fn parsed_runtime_id(text: Seq<char>) -> Option<usize> {
    let digits = unsigned_part(text);
    if digits.len() > 0 && all_digits(digits) && digits_value(digits) <= usize::MAX {
        Some(digits_value(digits) as usize)
    } else {
        None
    }
}

/// The script that tells an engine which instance it is.
pub open spec fn runtime_id_script_text(runtime_id: nat) -> Seq<char> {
    "DenoRider._runtimeId = \""@ + decimal(runtime_id) + "\""@
}

/// The script that settles the callback `application_id`: it resolves the
/// callback with the value of an `Ok`, and rejects it with that of an `Err`.
pub open spec fn apply_reply_script_text(
    application_id: Seq<char>,
    result: Result<Seq<char>, Seq<char>>,
) -> Seq<char> {
    match result {
        Ok(value) => "DenoRider._applications[\""@ + application_id + "\"].resolve("@ + value
            + ")"@,
        Err(value) => "DenoRider._applications[\""@ + application_id + "\"].reject("@ + value
            + ")"@,
    }
}

fn digit_text(d: usize) -> (text: &'static str)
    requires
        d < 10,
    ensures
        text@ == seq![digit(d as nat)],
{
    proof {
        reveal_strlit("0");
        reveal_strlit("1");
        reveal_strlit("2");
        reveal_strlit("3");
        reveal_strlit("4");
        reveal_strlit("5");
        reveal_strlit("6");
        reveal_strlit("7");
        reveal_strlit("8");
        reveal_strlit("9");
    }
    let text = if d == 0 {
        "0"
    } else if d == 1 {
        "1"
    } else if d == 2 {
        "2"
    } else if d == 3 {
        "3"
    } else if d == 4 {
        "4"
    } else if d == 5 {
        "5"
    } else if d == 6 {
        "6"
    } else if d == 7 {
        "7"
    } else if d == 8 {
        "8"
    } else {
        "9"
    };
    text
}

fn append_decimal(text: &mut String, n: usize)
    ensures
        final(text)@ == old(text)@ + decimal(n as nat),
    decreases n,
{
    if n >= 10 {
        append_decimal(text, n / 10);
    }
    text.append(digit_text(n % 10));
}

/// Writes the script that tells an engine which instance it is.
pub fn runtime_id_script(runtime_id: usize) -> (script: String)
    ensures
        script@ == runtime_id_script_text(runtime_id as nat),
{
    let mut script = String::from_str("DenoRider._runtimeId = \"");
    append_decimal(&mut script, runtime_id);
    script.append("\"");
    script
}

/// Writes the script that settles the callback `application_id` with
/// `result`. Neither text is escaped: the id is one that the engine handed
/// out, and the value is a script expression of the caller's.
pub fn apply_reply_script(application_id: &str, result: &Result<String, String>) -> (script:
    String)
    ensures
        script@ == apply_reply_script_text(
            application_id@,
            match *result {
                Ok(value) => Ok(value@),
                Err(value) => Err(value@),
            },
        ),
{
    let mut script = String::from_str("DenoRider._applications[\"");
    script.append(application_id);
    match result {
        Ok(value) => {
            script.append("\"].resolve(");
            script.append(value.as_str());
        },
        Err(value) => {
            script.append("\"].reject(");
            script.append(value.as_str());
        },
    }
    script.append(")");
    script
}

/// Reads an instance id.
pub fn parse_runtime_id(text: &str) -> (id: Option<usize>)
    ensures
        id == parsed_runtime_id(text@),
{
    if !text.is_ascii() {
        proof {
            lemma_not_ascii_not_id(text@);
        }
        return None;
    }
    let len: usize = text.unicode_len();
    let start: usize = if len > 0 && text.get_ascii(0) == PLUS {
        1
    } else {
        0
    };
    let ghost digits = unsigned_part(text@);
    assert(digits =~= text@.subrange(start as int, len as int));
    if start == len {
        return None;
    }
    let mut value: usize = 0;
    let mut i: usize = start;
    while i < len
        invariant
            start <= i <= len,
            len == text@.len(),
            text.is_ascii(),
            digits == unsigned_part(text@),
            digits == text@.subrange(start as int, len as int),
            all_digits(digits.take(i - start)),
            value == digits_value(digits.take(i - start)),
        decreases len - i,
    {
        let byte: u8 = text.get_ascii(i);
        let ghost prefix = digits.take(i - start + 1);
        assert(prefix.drop_last() =~= digits.take(i - start));
        assert(prefix.last() == text@[i as int]);
        if byte < ZERO || byte > NINE {
            return None;
        }
        let d: usize = (byte - ZERO) as usize;
        if value > (usize::MAX - d) / 10 {
            proof {
                lemma_digits_value_grows(digits, i - start + 1);
            }
            return None;
        }
        value = value * 10 + d;
        assert(all_digits(prefix));
        i = i + 1;
    }
    assert(digits.take(len - start) =~= digits);
    Some(value)
}

/// A text with a character beyond ASCII names no instance.
proof fn lemma_not_ascii_not_id(text: Seq<char>)
    requires
        !vstd::utf8::is_ascii_chars(text),
    ensures
        parsed_runtime_id(text) is None,
{
    let i = choose|i: int| 0 <= i < text.len() && !('\0' <= #[trigger] text[i] <= '\u{7f}');
    let digits = unsigned_part(text);
    if digits.len() > 0 && all_digits(digits) {
        // The character is among the digits, and no digit is beyond ASCII.
        if text[0] == '+' {
            assert(is_digit(digits[i - 1]));
        } else {
            assert(is_digit(digits[i]));
        }
    }
}

/// A run of digits stands for at least what any of its prefixes stands for.
proof fn lemma_digits_value_grows(text: Seq<char>, n: int)
    requires
        0 <= n <= text.len(),
    ensures
        digits_value(text.take(n)) <= digits_value(text),
    decreases text.len() - n,
{
    if n < text.len() {
        assert(text.take(n + 1).drop_last() =~= text.take(n));
        lemma_digits_value_grows(text, n + 1);
    } else {
        assert(text.take(n) =~= text);
    }
}

/// The digits of a number are digits, and stand for the number.
pub proof fn lemma_decimal_digits(n: nat)
    ensures
        decimal(n).len() > 0,
        all_digits(decimal(n)),
        digits_value(decimal(n)) == n,
    decreases n,
{
    if n < 10 {
        assert(digits_value(decimal(n).drop_last()) == 0);
    } else {
        lemma_decimal_digits(n / 10);
        assert(decimal(n).drop_last() =~= decimal(n / 10));
    }
}

/// An instance id that was written in decimal is read back as itself.
pub proof fn lemma_parse_decimal(runtime_id: usize)
    ensures
        parsed_runtime_id(decimal(runtime_id as nat)) == Some(runtime_id),
{
    lemma_decimal_digits(runtime_id as nat);
}

} // verus!
