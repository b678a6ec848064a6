use vstd::prelude::*;
use vstd::slice::*;
use vstd::string::*;
use crate::pattern::{is_match, regex_search};

verus! {

/// A colour with an alpha channel, one byte per channel.
#[derive(PartialEq, Eq, Structural, Debug)]
pub struct Color {
    pub red: u8,
    pub green: u8,
    pub blue: u8,
    pub alpha: u8,
}

/// Why a text is no colour.
#[derive(PartialEq, Eq, Structural, Debug)]
pub enum ColorError {
    /// The pattern for colours did not compile.
    Pattern,
    /// The text holds no `#` followed by eight characters of a colour.
    IncorrectFormat,
    /// A channel is not written as a hexadecimal byte.
    InvalidDigit,
}

/// The value of an ASCII hexadecimal digit, in either case.
pub open spec fn hex_value(byte: u8) -> Option<int> {
    if 0x30 <= byte <= 0x39 {
        Some(byte - 0x30)
    } else if 0x41 <= byte <= 0x46 {
        Some(byte - 0x41 + 10)
    } else if 0x61 <= byte <= 0x66 {
        Some(byte - 0x61 + 10)
    } else {
        None
    }
}

/// The byte that two characters spell in base sixteen: two digits, or a plus
/// sign and one digit.
pub open spec fn channel_value(high: u8, low: u8) -> Option<int> {
    match hex_value(low) {
        Some(units) => match hex_value(high) {
            Some(sixteens) => Some(16 * sixteens + units),
            None => if high == 0x2b {
                Some(units)
            } else {
                None
            },
        },
        None => None,
    }
}

/// Executable form of [`hex_value`].
pub fn hex_digit(byte: u8) -> (value: Option<u8>)
    ensures
        match value {
            Some(digit) => hex_value(byte) == Some(digit as int),
            None => hex_value(byte) is None,
        },
{
    if 0x30 <= byte && byte <= 0x39 {
        Some(byte - 0x30)
    } else if 0x41 <= byte && byte <= 0x46 {
        Some(byte - 0x41 + 10)
    } else if 0x61 <= byte && byte <= 0x66 {
        Some(byte - 0x61 + 10)
    } else {
        None
    }
}

/// Executable form of [`channel_value`].
pub fn channel(high: u8, low: u8) -> (value: Option<u8>)
    ensures
        match value {
            Some(byte) => channel_value(high, low) == Some(byte as int),
            None => channel_value(high, low) is None,
        },
{
    match hex_digit(low) {
        Some(units) => match hex_digit(high) {
            Some(sixteens) => Some(16 * sixteens + units),
            None => if high == 0x2b {
                Some(units)
            } else {
                None
            },
        },
        None => None,
    }
}

impl Color {
    /// The pattern that a text must hold to be read as a colour.
    pub const PATTERN: &'static str = "#[0-9|A-F|a-f]{8}";

    /// The colour that the bytes of a text spell, given what the search for
    /// the colour pattern in the text answered. The channels are read from
    /// the bytes at positions one to eight, two bytes each, in the order red,
    /// green, blue, alpha.
    pub open spec fn spec_from_search(bytes: Seq<u8>, found: Option<bool>) -> Result<
        Color,
        ColorError,
    > {
        match found {
            None => Err(ColorError::Pattern),
            Some(false) => Err(ColorError::IncorrectFormat),
            Some(true) => if bytes.len() < 9 {
                Err(ColorError::IncorrectFormat)
            } else {
                match (
                    channel_value(bytes[1], bytes[2]),
                    channel_value(bytes[3], bytes[4]),
                    channel_value(bytes[5], bytes[6]),
                    channel_value(bytes[7], bytes[8]),
                ) {
                    (Some(red), Some(green), Some(blue), Some(alpha)) => Ok(
                        Color {
                            red: red as u8,
                            green: green as u8,
                            blue: blue as u8,
                            alpha: alpha as u8,
                        },
                    ),
                    _ => Err(ColorError::InvalidDigit),
                }
            },
        }
    }

    /// Reads a colour from `text`, given what the search for the colour
    /// pattern in `text` answered.
    pub fn from_search(text: &str, found: Option<bool>) -> (color: Result<Color, ColorError>)
        ensures
            color == Self::spec_from_search(text.spec_bytes(), found),
    {
        match found {
            None => Err(ColorError::Pattern),
            Some(false) => Err(ColorError::IncorrectFormat),
            Some(true) => {
                let bytes = text.as_bytes();
                if bytes.len() < 9 {
                    return Err(ColorError::IncorrectFormat);
                }
                let red = channel(bytes[1], bytes[2]);
                let green = channel(bytes[3], bytes[4]);
                let blue = channel(bytes[5], bytes[6]);
                let alpha = channel(bytes[7], bytes[8]);
                match (red, green, blue, alpha) {
                    (Some(red), Some(green), Some(blue), Some(alpha)) => Ok(
                        Color { red, green, blue, alpha },
                    ),
                    _ => Err(ColorError::InvalidDigit),
                }
            },
        }
    }

    /// Reads a colour written as `#RRGGBBAA` in base sixteen. The text is
    /// searched for the colour pattern and then read from its second byte on.
    pub fn parse(text: &str) -> (color: Result<Color, ColorError>)
        ensures
            color == Self::spec_from_search(
                text.spec_bytes(),
                regex_search(Self::PATTERN@, text@),
            ),
    {
        let found = is_match(Self::PATTERN, text);
        Self::from_search(text, found)
    }
}

impl ColorError {
    /// The error in words.
    pub fn message(&self) -> (text: String)
        ensures
            text@ == match *self {
                ColorError::Pattern => "Invalid color pattern"@,
                ColorError::IncorrectFormat => "Incorrect color format"@,
                ColorError::InvalidDigit => "invalid digit found in string"@,
            },
    {
        match self {
            ColorError::Pattern => "Invalid color pattern".to_owned(),
            ColorError::IncorrectFormat => "Incorrect color format".to_owned(),
            ColorError::InvalidDigit => "invalid digit found in string".to_owned(),
        }
    }
}

} // verus!
