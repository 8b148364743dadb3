//! Numbers as the user writes them: decimal, or with a suffix for another
//! base.

use vstd::prelude::*;
use vstd::string::*;

verus! {

/// What `u32::from_str_radix` makes of a text in a base from 2 to 36: the
/// number that the text denotes in that base, if it denotes one that fits
/// 32 bits.
pub uninterp spec fn parsed(text: Seq<char>, radix: u32) -> Option<u32>;

/// Reads a number with `u32::from_str_radix`, which gives the same number
/// for the same text and base.
#[verifier::external_body]
pub(crate) fn parse_radix(text: &str, radix: u32) -> (number: Option<u32>)
    requires
        2 <= radix <= 36,
    ensures
        number == parsed(text@, radix),
{
    u32::from_str_radix(text, radix).ok()
}

/// The number that a text stands for, or the message that says why it
/// stands for none, from what the text is as a decimal number, its last
/// character, and what the text without that character is in base 16, in
/// base 8 and in base 2. A decimal number stands for itself. Any other text
/// is read without its last character: in base 16 where that character is
/// `h`, in base 8 where it is `o`, and in base 2 where it is `b`.
pub open spec fn chosen(
    decimal: Option<u32>,
    last: Option<char>,
    hex: Option<u32>,
    octal: Option<u32>,
    binary: Option<u32>,
) -> Result<u32, Seq<char>> {
    match decimal {
        Some(number) => Ok(number),
        None => match last {
            None => Err("bad number format"@),
            Some(suffix) => if suffix == 'h' {
                match hex {
                    Some(number) => Ok(number),
                    None => Err("bad hex number format"@),
                }
            } else if suffix == 'o' {
                match octal {
                    Some(number) => Ok(number),
                    None => Err("bad octal number format"@),
                }
            } else if suffix == 'b' {
                match binary {
                    Some(number) => Ok(number),
                    None => Err("bad binary number format"@),
                }
            } else {
                Err("bad number format"@)
            },
        },
    }
}

/// The number that a text stands for, or the message that says why it
/// stands for none.
pub open spec fn number_of(text: Seq<char>) -> Result<u32, Seq<char>> {
    if text.len() == 0 {
        chosen(parsed(text, 10), None, None, None, None)
    } else {
        chosen(
            parsed(text, 10),
            Some(text.last()),
            parsed(text.drop_last(), 16),
            parsed(text.drop_last(), 8),
            parsed(text.drop_last(), 2),
        )
    }
}

/// Chooses the number that a text stands for from what the text is as a
/// decimal number, its last character, and what the text without that
/// character is in base 16, in base 8 and in base 2.
pub fn number_from(
    decimal: Option<u32>,
    last: Option<char>,
    hex: Option<u32>,
    octal: Option<u32>,
    binary: Option<u32>,
) -> (res: Result<u32, String>)
    ensures
        match chosen(decimal, last, hex, octal, binary) {
            Ok(number) => res == Ok::<u32, String>(number),
            Err(message) => res matches Err(text) && text@ == message,
        },
{
    match decimal {
        Some(number) => {
            return Ok(number);
        },
        None => {},
    }
    let suffix: char = match last {
        Some(suffix) => suffix,
        None => {
            return Err(String::from_str("bad number format"));
        },
    };
    if suffix == 'h' {
        match hex {
            Some(number) => Ok(number),
            None => Err(String::from_str("bad hex number format")),
        }
    } else if suffix == 'o' {
        match octal {
            Some(number) => Ok(number),
            None => Err(String::from_str("bad octal number format")),
        }
    } else if suffix == 'b' {
        match binary {
            Some(number) => Ok(number),
            None => Err(String::from_str("bad binary number format")),
        }
    } else {
        Err(String::from_str("bad number format"))
    }
}

/// Reads a number: decimal, or with the suffix `h`, `o` or `b`.
pub fn string_to_number(string: &str) -> (res: Result<u32, String>)
    ensures
        match number_of(string@) {
            Ok(number) => res == Ok::<u32, String>(number),
            Err(message) => res matches Err(text) && text@ == message,
        },
{
    let decimal = parse_radix(string, 10);
    let len = string.unicode_len();
    if len == 0 {
        return number_from(decimal, None, None, None, None);
    }
    let last = string.get_char(len - 1);
    let body = string.substring_char(0, len - 1);
    assert(body@ =~= string@.drop_last());
    number_from(
        decimal,
        Some(last),
        parse_radix(body, 16),
        parse_radix(body, 8),
        parse_radix(body, 2),
    )
}

/// The first four characters of a text, or the digit zero for an empty
/// text.
pub open spec fn hex_field(text: Seq<char>) -> Seq<char> {
    if text.len() == 0 {
        "0"@
    } else if text.len() > 4 {
        text.take(4)
    } else {
        text
    }
}

/// Cuts a text to its first four characters, makes an empty text the digit
/// zero, and tells whether the text is then a hexadecimal number.
pub fn check_number_is_hex(num: &mut String) -> (is_hex: bool)
    ensures
        final(num)@ == hex_field(old(num)@),
        is_hex == parsed(hex_field(old(num)@), 16) is Some,
{
    let len = num.as_str().unicode_len();
    if len == 0 {
        *num = String::from_str("0");
    } else if len > 4 {
        let head = num.as_str().substring_char(0, 4);
        let cut = String::from_str(head);
        assert(cut@ =~= num@.take(4));
        *num = cut;
    }
    parse_radix(num.as_str(), 16).is_some()
}

} // verus!
