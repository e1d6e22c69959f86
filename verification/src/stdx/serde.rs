//! Reading a `u32` that `webtoons.com` sends either as a number or as a string.
use crate::stdx::num::{IntErrorKind, parse_decimal, parse_u32};
use crate::stdx::text::chars_of;
use vstd::prelude::*;

verus! {

/// A JSON value that should hold a `u32`: a number, or a string of digits.
#[derive(Debug)]
pub enum NumberOrString {
    /// A JSON number.
    Number(u64),
    /// A JSON string.
    Text(String),
}

/// Why a [`NumberOrString`] did not give a `u32`.
#[derive(Debug, Clone, Copy, PartialEq, Eq, Structural)]
pub enum U32FromStringError {
    /// The number does not fit in a `u32`.
    OutOfRange,
    /// The string is not a `u32` in decimal.
    Parse(IntErrorKind),
}

/// The `u32` held by a number or by a decimal string.
pub fn u32_from_string(value: NumberOrString) -> (r: Result<u32, U32FromStringError>)
    ensures
        match value {
            NumberOrString::Number(n) => if n <= u32::MAX {
                r == Ok::<u32, U32FromStringError>(n as u32)
            } else {
                r == Err::<u32, U32FromStringError>(U32FromStringError::OutOfRange)
            },
            NumberOrString::Text(s) => match parse_decimal(s@, u32::MAX as nat) {
                Ok(v) => r == Ok::<u32, U32FromStringError>(v as u32),
                Err(e) => r == Err::<u32, U32FromStringError>(U32FromStringError::Parse(e)),
            },
        },
{
    match value {
        NumberOrString::Number(n) => if n <= u32::MAX as u64 {
            Ok(n as u32)
        } else {
            Err(U32FromStringError::OutOfRange)
        },
        NumberOrString::Text(s) => {
            let cs = chars_of(s.as_str());
            match parse_u32(&cs) {
                Ok(v) => Ok(v),
                Err(e) => Err(U32FromStringError::Parse(e)),
            }
        },
    }
}

} // verus!
