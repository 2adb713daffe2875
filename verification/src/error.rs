//! Failure values of the parser. Every error carries enough positional
//! context to localize the failure in the stream without re-parsing.

use vstd::prelude::*;
use crate::box_types::BoxInfo;

verus! {

/// Ghost classification of parsing failures, used by the spec-level parsing
/// outcomes to state which error the executable parser reports on a given
/// stream, and with which key fields.
pub enum ErrKind {
    /// The stream ended in the middle of a fixed-width read or skip.
    EndOfStream,
    /// Bytes read as text were not valid UTF-8.
    InvalidText,
    /// A decoder met a version byte outside its accepted set.
    BadVersion { expected: Seq<u8>, actual: u8 },
    /// A box's size cannot even hold the box's own header. `code` is the
    /// decoded type code, absent when a level's leftover budget could not
    /// even hold a size field.
    TooSmall { offset: int, size: int, code: Option<Seq<char>> },
    /// A box's resolved size exceeds the remaining budget of its level.
    TooLarge { offset: int, size: int, code: Seq<char>, remaining: int },
    /// A decoder consumed past the box's declared end.
    ReadPastEnd { expected_end: int, actual_end: int },
    /// A decoder consumed less than the box's declared span.
    ReadShort { expected_end: int, actual_end: int },
}

/// Whether the executable error `e` reports the ghost failure `k`.
pub open spec fn err_matches(e: BoxParsingError, k: ErrKind) -> bool {
    match k {
        ErrKind::EndOfStream => e matches BoxParsingError::IOError { .. },
        ErrKind::InvalidText => e matches BoxParsingError::UTF8Error { .. },
        ErrKind::BadVersion { expected, actual } => {
            &&& e matches BoxParsingError::InvalidVersion { expected: ex, actual: ac, .. }
            &&& ex@ == expected
            &&& ac == actual
        },
        ErrKind::TooSmall { offset, size, code } => {
            &&& e matches BoxParsingError::BoxTooSmall { offset: o, size: sz, short_name, .. }
            &&& o == offset
            &&& sz == size
            &&& match code {
                Some(cs) => short_name matches Some(n) && n@ == cs,
                None => short_name is None,
            }
        },
        ErrKind::TooLarge { offset, size, code, remaining } => {
            &&& e matches BoxParsingError::BoxTooLarge { info, remaining: rem }
            &&& info.offset == offset
            &&& info.size == size
            &&& info.short_name@ == code
            &&& rem == remaining
        },
        ErrKind::ReadPastEnd { expected_end, actual_end } => {
            &&& e matches BoxParsingError::ReadTooMuch { info, actual_end: a }
            &&& info.offset + info.size == expected_end
            &&& a == actual_end
        },
        ErrKind::ReadShort { expected_end, actual_end } => {
            &&& e matches BoxParsingError::ReadNotEnough { info, actual_end: a }
            &&& info.offset + info.size == expected_end
            &&& a == actual_end
        },
    }
}

/// The failures a field decoder reports for itself: an end-of-stream or
/// text failure, or an invalid version citing the box being decoded —
/// never one of the engine's structural errors.
pub open spec fn decoder_err(e: BoxParsingError, info: BoxInfo) -> bool {
    match e {
        BoxParsingError::IOError { .. } => true,
        BoxParsingError::UTF8Error { .. } => true,
        BoxParsingError::InvalidVersion { info: i, .. } => i == info,
        _ => false,
    }
}

/// Error returned when reading a fixed number of bytes as text.
pub enum ReadStrError {
    /// The stream ended before the requested byte count; `pos` is the
    /// position the read started from.
    IOError { pos: u64 },
    /// The bytes were read but are not valid UTF-8; `pos` is the position
    /// the read started from.
    FromUTF8Error { pos: u64 },
}

/// Error aborting a parse. The whole parse stops at the first error; no
/// partial tree is returned.
pub enum BoxParsingError {
    /// The stream ended in the middle of a fixed-width read or skip that
    /// started at `pos`.
    IOError { pos: u64 },
    /// Bytes read as text at `pos` are not valid UTF-8.
    UTF8Error { pos: u64 },
    /// A decoder met a version byte outside its accepted set.
    InvalidVersion { info: BoxInfo, expected: Vec<u8>, actual: u8 },
    /// A declared box size cannot hold the box's own header. `short_name`
    /// is the type code when it could be read before the check fired.
    BoxTooSmall { offset: u64, size: u64, short_name: Option<String>, parent: Option<Box<BoxInfo>> },
    /// A box's resolved size exceeds what remains of its level's budget.
    BoxTooLarge { info: BoxInfo, remaining: u64 },
    /// After decoding, the cursor stood past the box's declared end
    /// (`info.offset + info.size`); it stood at `actual_end`.
    ReadTooMuch { info: BoxInfo, actual_end: u64 },
    /// After decoding, the cursor stood short of the box's declared end
    /// (`info.offset + info.size`); it stood at `actual_end`.
    ReadNotEnough { info: BoxInfo, actual_end: u64 },
}

impl From<ReadStrError> for BoxParsingError {
    fn from(err: ReadStrError) -> (r: BoxParsingError) {
        match err {
            ReadStrError::IOError { pos } => BoxParsingError::IOError { pos },
            ReadStrError::FromUTF8Error { pos } => BoxParsingError::UTF8Error { pos },
        }
    }
}

impl vstd::std_specs::convert::FromSpecImpl<ReadStrError> for BoxParsingError {
    open spec fn obeys_from_spec() -> bool {
        true
    }

    open spec fn from_spec(err: ReadStrError) -> Self {
        match err {
            ReadStrError::IOError { pos } => BoxParsingError::IOError { pos },
            ReadStrError::FromUTF8Error { pos } => BoxParsingError::UTF8Error { pos },
        }
    }
}

} // verus!
