//! The listening port: taken from a textual setting, or the default when no
//! setting is present.

use vstd::prelude::*;

verus! {

/// The port used when no setting is present.
pub const DEFAULT_PORT: u16 = 8080;

/// The byte of the character `+`.
const PLUS_SIGN: u8 = 43;

/// The byte of the digit `0`.
const DIGIT_ZERO: u8 = 48;

/// The byte of the digit `9`.
const DIGIT_NINE: u8 = 57;

/// The setting is present but is not the decimal text of a port number.
#[derive(Debug, Clone, Copy, PartialEq, Eq, Structural)]
pub enum PortError {
    /// The text is empty, holds a character other than a decimal digit after
    /// an optional leading `+`, or names a number above 65535.
    Invalid,
}

/// Whether `c` is one of the ten ASCII decimal digits.
pub open spec fn is_digit(c: char) -> bool {
    '0' <= c <= '9'
}

/// Whether every character of `text` is a decimal digit.
pub open spec fn all_digits(text: Seq<char>) -> bool {
    forall|i: int| 0 <= i < text.len() ==> is_digit(#[trigger] text[i])
}

/// The number that a sequence of decimal digits denotes, most significant
/// digit first. The empty sequence denotes zero.
pub open spec fn decimal_value(digits: Seq<char>) -> nat
    decreases digits.len(),
{
    if digits.len() == 0 {
        0
    } else {
        (decimal_value(digits.drop_last()) * 10 + (digits.last() as nat - '0' as nat)) as nat
    }
}

/// The text without its sign: one leading `+` is dropped, nothing else.
pub open spec fn unsigned_part(text: Seq<char>) -> Seq<char> {
    if text.len() > 0 && text[0] == '+' {
        text.drop_first()
    } else {
        text
    }
}

/// Whether `text` is the decimal text of a port number: an optional `+`, then
/// at least one digit and only digits, denoting a number of at most 65535.
/// Leading zeros are allowed; blanks, a `-` sign and separators are not.
pub open spec fn is_port_text(text: Seq<char>) -> bool {
    let digits = unsigned_part(text);
    &&& digits.len() > 0
    &&& all_digits(digits)
    &&& decimal_value(digits) <= u16::MAX
}

/// The port that `text` denotes; meaningful where `is_port_text(text)`.
pub open spec fn port_value(text: Seq<char>) -> nat {
    decimal_value(unsigned_part(text))
}

/// What a setting resolves to: the default port when the setting is absent,
/// the number it denotes when it is the text of a port, an error otherwise.
pub open spec fn resolve(setting: Option<Seq<char>>) -> Result<u16, PortError> {
    match setting {
        None => Ok(DEFAULT_PORT),
        Some(text) => if is_port_text(text) {
            Ok(port_value(text) as u16)
        } else {
            Err(PortError::Invalid)
        },
    }
}

/// Appending digits never lowers the denoted number.
proof fn lemma_prefix_value_le(digits: Seq<char>, k: int)
    requires
        all_digits(digits),
        0 <= k <= digits.len(),
    ensures
        decimal_value(digits.subrange(0, k)) <= decimal_value(digits),
    decreases digits.len() - k,
{
    if k == digits.len() {
        assert(digits.subrange(0, k) =~= digits);
    } else {
        let longer = digits.subrange(0, k + 1);
        assert(longer.drop_last() =~= digits.subrange(0, k));
        assert(is_digit(digits[k]));
        assert(longer.last() == digits[k]);
        lemma_prefix_value_le(digits, k + 1);
    }
}

/// Reads the decimal text of a port number.
///
/// Accepts exactly the texts that `is_port_text` describes and returns the
/// number they denote; every other text is an error.
pub fn parse_port(text: &str) -> (result: Result<u16, PortError>)
    ensures
        is_port_text(text@) ==> result == Ok::<u16, PortError>(port_value(text@) as u16),
        !is_port_text(text@) ==> result == Err::<u16, PortError>(PortError::Invalid),
        result == resolve(Some(text@)),
{
    broadcast use vstd::string::is_ascii_spec_bytes;

    if !text.is_ascii() {
        proof {
            let chars = text@;
            let i = choose|i: int| 0 <= i < chars.len() && !('\0' <= #[trigger] chars[i] <= '\u{7f}');
            let digits = unsigned_part(chars);
            if i == 0 {
                assert(chars[0] != '+');
                assert(!is_digit(digits[0]));
            } else if chars[0] == '+' {
                assert(digits[i - 1] == chars[i]);
                assert(!is_digit(digits[i - 1]));
            } else {
                assert(!is_digit(digits[i]));
            }
        }
        return Err(PortError::Invalid);
    }
    let bytes = text.as_bytes();
    let len: usize = bytes.len();
    let start: usize = if len > 0 && bytes[0] == PLUS_SIGN { 1 } else { 0 };
    let ghost digits = unsigned_part(text@);
    assert(digits =~= text@.subrange(start as int, len as int));
    if start == len {
        return Err(PortError::Invalid);
    }
    let mut value: u32 = 0;
    let mut at: usize = start;
    while at < len
        invariant
            start <= at <= len,
            len == text@.len(),
            bytes@.len() == len,
            forall|i: int| 0 <= i < len ==> bytes@[i] == text@[i] as u8,
            vstd::string::is_ascii(text),
            digits == unsigned_part(text@),
            digits == text@.subrange(start as int, len as int),
            all_digits(digits.subrange(0, at - start)),
            value == decimal_value(digits.subrange(0, at - start)),
            value <= u16::MAX,
        decreases len - at,
    {
        let byte: u8 = bytes[at];
        let ghost seen = digits.subrange(0, at - start);
        let ghost next = digits.subrange(0, at - start + 1);
        proof {
            assert(next.drop_last() =~= seen);
            assert(next.last() == text@[at as int]);
            assert(digits[at - start] == text@[at as int]);
        }
        if byte < DIGIT_ZERO || byte > DIGIT_NINE {
            assert(!is_digit(digits[at - start]));
            return Err(PortError::Invalid);
        }
        assert(is_digit(text@[at as int]));
        value = value * 10 + (byte - DIGIT_ZERO) as u32;
        assert(value == decimal_value(next));
        assert(all_digits(next)) by {
            assert forall|i: int| 0 <= i < next.len() implies is_digit(#[trigger] next[i]) by {
                if i < seen.len() {
                    assert(next[i] == seen[i]);
                }
            }
        }
        if value > 65535u32 {
            proof {
                if all_digits(digits) {
                    lemma_prefix_value_le(digits, at - start + 1);
                }
            }
            return Err(PortError::Invalid);
        }
        at = at + 1;
    }
    assert(digits.subrange(0, at - start) =~= digits);
    Ok(value as u16)
}

/// The port to listen on, given the setting as it was found.
///
/// An absent setting gives the default port. A present one must be the text
/// of a port number: it is never replaced by the default.
pub fn port_from_setting(setting: Option<&str>) -> (result: Result<u16, PortError>)
    ensures
        result == resolve(
            match setting {
                Some(text) => Some(text@),
                None => None,
            },
        ),
{
    match setting {
        None => Ok(DEFAULT_PORT),
        Some(text) => parse_port(text),
    }
}

} // verus!
