//! The ways in which a decode can fail.
use std::char::DecodeUtf16Error;
use std::str::Utf8Error;
use vstd::prelude::*;

verus! {

/// The error of `std::str::from_utf8`.
#[verifier::external_type_specification]
#[verifier::external_body]
pub struct ExUtf8Error(Utf8Error);

/// The error of `std::char::decode_utf16`.
#[verifier::external_type_specification]
#[verifier::external_body]
pub struct ExDecodeUtf16Error(DecodeUtf16Error);

/// Why a structure could not be taken from the bytes, apart from text
/// that does not decode.
#[derive(Clone, Copy, Debug, PartialEq, Eq, Structural)]
pub enum IoFailure {
    /// The buffer ended before a required field.
    Truncated,
    /// A value breaks a rule of the format.
    InvalidData,
    /// A known layout that has no decoder.
    NotImplemented,
}

/// The error of every decoder in this crate.
#[derive(Clone, Copy, Debug, PartialEq, Eq, Structural)]
pub enum ReaderError {
    /// The bytes ran out or do not have the shape of the structure.
    IoError(IoFailure),
    /// A UTF-16 string holds an unpaired surrogate.
    Utf16Error,
    /// A UTF-8 string holds bytes that are not UTF-8.
    Utf8Error,
    /// A string could not be decoded as Windows-1252.
    CP1252Error,
}

impl ReaderError {
    /// The error of a buffer that ends too early.
    pub open spec fn truncated() -> ReaderError {
        ReaderError::IoError(IoFailure::Truncated)
    }

    /// The error of a buffer that ends too early.
    pub fn truncated_error() -> (e: ReaderError)
        ensures
            e == ReaderError::truncated(),
    {
        ReaderError::IoError(IoFailure::Truncated)
    }

    /// What is shown to a reader for this error.
    pub fn to_string(&self) -> (text: String)
        ensures
            text@ == (match *self {
                ReaderError::IoError(IoFailure::Truncated) => "an IO error has occurred: unexpected end of data"@,
                ReaderError::IoError(IoFailure::InvalidData) => "an IO error has occurred: invalid data"@,
                ReaderError::IoError(IoFailure::NotImplemented) => "an IO error has occurred: not implemented"@,
                ReaderError::Utf16Error => "error while decoding UTF-16: unpaired surrogate found"@,
                ReaderError::Utf8Error => "error while decoding UTF-8: invalid byte sequence"@,
                ReaderError::CP1252Error => "unable to decode the value using CP1252"@,
            }),
    {
        match self {
            ReaderError::IoError(IoFailure::Truncated) => "an IO error has occurred: unexpected end of data".to_string(),
            ReaderError::IoError(IoFailure::InvalidData) => "an IO error has occurred: invalid data".to_string(),
            ReaderError::IoError(IoFailure::NotImplemented) => "an IO error has occurred: not implemented".to_string(),
            ReaderError::Utf16Error => "error while decoding UTF-16: unpaired surrogate found".to_string(),
            ReaderError::Utf8Error => "error while decoding UTF-8: invalid byte sequence".to_string(),
            ReaderError::CP1252Error => "unable to decode the value using CP1252".to_string(),
        }
    }
}

impl From<DecodeUtf16Error> for ReaderError {
    fn from(_value: DecodeUtf16Error) -> (e: ReaderError) {
        ReaderError::Utf16Error
    }
}

impl vstd::std_specs::convert::FromSpecImpl<DecodeUtf16Error> for ReaderError {
    open spec fn obeys_from_spec() -> bool {
        true
    }

    open spec fn from_spec(_value: DecodeUtf16Error) -> ReaderError {
        ReaderError::Utf16Error
    }
}

impl From<Utf8Error> for ReaderError {
    fn from(_value: Utf8Error) -> (e: ReaderError) {
        ReaderError::Utf8Error
    }
}

impl vstd::std_specs::convert::FromSpecImpl<Utf8Error> for ReaderError {
    open spec fn obeys_from_spec() -> bool {
        true
    }

    open spec fn from_spec(_value: Utf8Error) -> ReaderError {
        ReaderError::Utf8Error
    }
}

} // verus!
