//! What one invocation asks for.

use vstd::prelude::*;
use vstd::string::*;
use crate::take::{count_of, parse_num, InvalidCount, TakeValue};

verus! {

/// One invocation: the files to go through, in this order, and what to
/// select from each. Where `bytes` is given, bytes are selected and `lines`
/// is not looked at.
#[derive(Debug, PartialEq, Eq)]
pub struct Config {
    pub files: Vec<String>,
    pub lines: TakeValue,
    pub bytes: Option<TakeValue>,
    pub quiet: bool,
}

/// Why the arguments of an invocation were refused.
#[derive(Debug, PartialEq, Eq)]
pub enum ConfigError {
    /// The count of lines could not be read.
    IllegalLineCount(InvalidCount),
    /// The count of bytes could not be read.
    IllegalByteCount(InvalidCount),
    /// A count of lines and a count of bytes were both given.
    ConflictingMode,
}

impl ConfigError {
    /// The message of this error as a sequence of characters.
    pub open spec fn message(self) -> Seq<char> {
        match self {
            ConfigError::IllegalLineCount(e) => "illegal line count -- "@ + e.offending@,
            ConfigError::IllegalByteCount(e) => "illegal byte count -- "@ + e.offending@,
            ConfigError::ConflictingMode =>
                "the argument '--lines <LINES>' cannot be used with '--bytes <BYTES>'"@,
        }
    }

    /// The message to show to the user.
    pub fn to_string(&self) -> (s: String)
        ensures
            s@ == self.message(),
    {
        match self {
            ConfigError::IllegalLineCount(e) => {
                let mut s = String::from_str("illegal line count -- ");
                s.append(e.offending.as_str());
                s
            },
            ConfigError::IllegalByteCount(e) => {
                let mut s = String::from_str("illegal byte count -- ");
                s.append(e.offending.as_str());
                s
            },
            ConfigError::ConflictingMode => String::from_str(
                "the argument '--lines <LINES>' cannot be used with '--bytes <BYTES>'",
            ),
        }
    }
}

/// The count of lines where none is given: the last ten.
pub const DEFAULT_LINES: i64 = -10;

/// Puts the arguments of an invocation together: the files, the count of
/// lines and the count of bytes as the user wrote them, if they did, and
/// whether headers are suppressed.
///
/// A count of lines and a count of bytes exclude each other. That is looked
/// at first, then the count of lines is read, then the count of bytes; the
/// first of these that fails decides the error.
pub fn get_args(files: Vec<String>, lines: Option<&str>, bytes: Option<&str>, quiet: bool) -> (r:
    Result<Config, ConfigError>)
    ensures
        match r {
            Ok(config) => {
                &&& !(lines is Some && bytes is Some)
                &&& config.files == files
                &&& config.quiet == quiet
                &&& Some(config.lines) == match lines {
                    Some(text) => count_of(text@),
                    None => Some(TakeValue::TakeNum(DEFAULT_LINES)),
                }
                &&& match bytes {
                    Some(text) => config.bytes is Some && config.bytes == count_of(text@),
                    None => config.bytes is None,
                }
            },
            Err(ConfigError::ConflictingMode) => lines is Some && bytes is Some,
            Err(ConfigError::IllegalLineCount(e)) => {
                &&& bytes is None
                &&& lines matches Some(text)
                &&& count_of(text@) is None
                &&& e.offending@ == text@
            },
            Err(ConfigError::IllegalByteCount(e)) => {
                &&& lines is None
                &&& bytes matches Some(text)
                &&& count_of(text@) is None
                &&& e.offending@ == text@
            },
        },
{
    if lines.is_some() && bytes.is_some() {
        return Err(ConfigError::ConflictingMode);
    }
    let lines = match lines {
        Some(text) => match parse_num(text) {
            Ok(count) => count,
            Err(e) => {
                return Err(ConfigError::IllegalLineCount(e));
            },
        },
        None => TakeValue::TakeNum(DEFAULT_LINES),
    };
    let bytes = match bytes {
        Some(text) => match parse_num(text) {
            Ok(count) => Some(count),
            Err(e) => {
                return Err(ConfigError::IllegalByteCount(e));
            },
        },
        None => None,
    };
    Ok(Config { files, lines, bytes, quiet })
}

} // verus!
