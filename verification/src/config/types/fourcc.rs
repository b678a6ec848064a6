use vstd::prelude::*;
use vstd::string::*;
use crate::pattern::{is_match, regex_search};

verus! {

/// Why a text is no four-character code.
#[derive(PartialEq, Eq, Structural, Debug)]
pub enum FourccError {
    /// The pattern for codes did not compile.
    Pattern,
    /// The text holds no four capital letters in a row.
    IncorrectFormat,
    /// One of the first four characters does not fit in a byte.
    OutOfRange,
}

/// The pattern that a text must hold to be read as a four-character code.
pub const FOURCC_PATTERN: &'static str = "[A-Z]{4}";

/// The signed 32-bit number with the bits of `bits`.
pub open spec fn as_signed(bits: int) -> int {
    if bits >= 0x8000_0000 {
        bits - 0x1_0000_0000
    } else {
        bits
    }
}

/// The code of four characters: the first in the lowest byte, the fourth in
/// the highest. Characters beyond a byte have no code.
pub open spec fn spec_fourcc(c1: char, c2: char, c3: char, c4: char) -> Option<int> {
    if c1 as u32 > 255 || c2 as u32 > 255 || c3 as u32 > 255 || c4 as u32 > 255 {
        None
    } else {
        Some(
            as_signed(
                (c1 as u32) + (c2 as u32) * 0x100 + (c3 as u32) * 0x1_0000 + (c4 as u32)
                    * 0x100_0000,
            ),
        )
    }
}

/// Concatenates four characters to the code of a video codec.
pub fn fourcc(c1: char, c2: char, c3: char, c4: char) -> (code: Option<i32>)
    ensures
        match code {
            Some(number) => spec_fourcc(c1, c2, c3, c4) == Some(number as int),
            None => spec_fourcc(c1, c2, c3, c4) is None,
        },
{
    let b1: u32 = c1 as u32;
    let b2: u32 = c2 as u32;
    let b3: u32 = c3 as u32;
    let b4: u32 = c4 as u32;
    if b1 > 255 || b2 > 255 || b3 > 255 || b4 > 255 {
        return None;
    }
    let low: u32 = b1 + b2 * 0x100 + b3 * 0x1_0000;
    if b4 >= 128 {
        let high: i64 = (b4 as i64 - 256) * 0x100_0000;
        Some((high + low as i64) as i32)
    } else {
        Some((b4 * 0x100_0000 + low) as i32)
    }
}

/// The code that a text spells, given what the search for the code pattern
/// in the text answered: the code of the text's first four characters.
pub open spec fn spec_fourcc_from_search(text: Seq<char>, found: Option<bool>) -> Result<
    int,
    FourccError,
> {
    match found {
        None => Err(FourccError::Pattern),
        Some(false) => Err(FourccError::IncorrectFormat),
        Some(true) => if text.len() < 4 {
            Err(FourccError::IncorrectFormat)
        } else {
            match spec_fourcc(text[0], text[1], text[2], text[3]) {
                Some(code) => Ok(code),
                None => Err(FourccError::OutOfRange),
            }
        },
    }
}

/// Reads a four-character code from `text`, given what the search for the
/// code pattern in `text` answered.
pub fn fourcc_from_search(text: &str, found: Option<bool>) -> (code: Result<i32, FourccError>)
    ensures
        match code {
            Ok(number) => spec_fourcc_from_search(text@, found) == Ok::<int, FourccError>(
                number as int,
            ),
            Err(error) => spec_fourcc_from_search(text@, found) == Err::<int, FourccError>(error),
        },
{
    match found {
        None => Err(FourccError::Pattern),
        Some(false) => Err(FourccError::IncorrectFormat),
        Some(true) => {
            if text.unicode_len() < 4 {
                return Err(FourccError::IncorrectFormat);
            }
            match fourcc(text.get_char(0), text.get_char(1), text.get_char(2), text.get_char(3)) {
                Some(code) => Ok(code),
                None => Err(FourccError::OutOfRange),
            }
        },
    }
}

/// Reads the code of a video codec from a text such as `DIVX`. The text is
/// searched for four capital letters in a row and its first four characters
/// are then taken for the code.
pub fn parse_fourcc(text: &str) -> (code: Result<i32, FourccError>)
    ensures
        match code {
            Ok(number) => spec_fourcc_from_search(text@, regex_search(FOURCC_PATTERN@, text@))
                == Ok::<int, FourccError>(number as int),
            Err(error) => spec_fourcc_from_search(text@, regex_search(FOURCC_PATTERN@, text@))
                == Err::<int, FourccError>(error),
        },
{
    let found = is_match(FOURCC_PATTERN, text);
    fourcc_from_search(text, found)
}

impl FourccError {
    /// The error in words.
    pub fn message(&self) -> (text: String)
        ensures
            text@ == match *self {
                FourccError::Pattern => "Invalid fourcc pattern"@,
                FourccError::IncorrectFormat => "Incorrect fourcc format"@,
                FourccError::OutOfRange => "out of range integral type conversion attempted"@,
            },
    {
        match self {
            FourccError::Pattern => "Invalid fourcc pattern".to_owned(),
            FourccError::IncorrectFormat => "Incorrect fourcc format".to_owned(),
            FourccError::OutOfRange => "out of range integral type conversion attempted".to_owned(),
        }
    }
}

} // verus!
