//! The failures that the codecs report.

use vstd::prelude::*;
use vstd::string::*;

verus! {

/// Why a codec operation was rejected. Each variant that quotes caller input
/// carries that input unchanged.
#[derive(Clone, Debug, PartialEq, Eq)]
pub enum CodecError {
    /// The named worksheet does not exist.
    UnknownSheet(String),
    /// The text is not a well-formed cell or column reference.
    InvalidReference(String),
    /// The text is not a member of a closed vocabulary.
    InvalidEnumValue(String),
    /// A record lacks a field that its kind requires; the field is named.
    MissingRequiredField(String),
    /// The value kind is not one the codec knows.
    UnsupportedValueType(String),
    /// The text is not an ISO date or date-time.
    InvalidDateFormat(String),
    /// A unit conversion left the range of its integer type.
    NumericOverflow,
    /// A source file is absent; the path is carried.
    ResourceNotFound(String),
    /// Opening or saving the document failed; the cause is carried.
    UnderlyingIOFailure(String),
}

/// The mathematical content of a [`CodecError`].
pub enum Failure {
    UnknownSheet(Seq<char>),
    InvalidReference(Seq<char>),
    InvalidEnumValue(Seq<char>),
    MissingRequiredField(Seq<char>),
    UnsupportedValueType(Seq<char>),
    InvalidDateFormat(Seq<char>),
    NumericOverflow,
    ResourceNotFound(Seq<char>),
    UnderlyingIOFailure(Seq<char>),
}

impl View for CodecError {
    type V = Failure;

    open spec fn view(&self) -> Failure {
        match self {
            CodecError::UnknownSheet(s) => Failure::UnknownSheet(s@),
            CodecError::InvalidReference(s) => Failure::InvalidReference(s@),
            CodecError::InvalidEnumValue(s) => Failure::InvalidEnumValue(s@),
            CodecError::MissingRequiredField(s) => Failure::MissingRequiredField(s@),
            CodecError::UnsupportedValueType(s) => Failure::UnsupportedValueType(s@),
            CodecError::InvalidDateFormat(s) => Failure::InvalidDateFormat(s@),
            CodecError::NumericOverflow => Failure::NumericOverflow,
            CodecError::ResourceNotFound(s) => Failure::ResourceNotFound(s@),
            CodecError::UnderlyingIOFailure(s) => Failure::UnderlyingIOFailure(s@),
        }
    }
}

/// An outcome and its mathematical content agree: success with the same
/// content, or failure with the same content.
pub open spec fn agrees<T: View>(r: Result<T, CodecError>, m: Result<T::V, Failure>) -> bool {
    match m {
        Ok(x) => r is Ok && r->Ok_0@ == x,
        Err(e) => r is Err && r->Err_0@ == e,
    }
}

/// The optional text behind an optional string.
pub open spec fn text_of(o: Option<String>) -> Option<Seq<char>> {
    match o {
        Some(s) => Some(s@),
        None => None,
    }
}

/// The text behind an optional string slice.
pub open spec fn slice_of(o: Option<&str>) -> Option<Seq<char>> {
    match o {
        Some(s) => Some(s@),
        None => None,
    }
}

impl CodecError {
    /// The text that the error carries, empty for an overflow.
    pub open spec fn detail(self) -> Seq<char> {
        match self {
            CodecError::UnknownSheet(s) => s@,
            CodecError::InvalidReference(s) => s@,
            CodecError::InvalidEnumValue(s) => s@,
            CodecError::MissingRequiredField(s) => s@,
            CodecError::UnsupportedValueType(s) => s@,
            CodecError::InvalidDateFormat(s) => s@,
            CodecError::NumericOverflow => Seq::empty(),
            CodecError::ResourceNotFound(s) => s@,
            CodecError::UnderlyingIOFailure(s) => s@,
        }
    }

    /// The fixed words that introduce each kind of failure in a message.
    pub open spec fn heading(self) -> Seq<char> {
        match self {
            CodecError::UnknownSheet(_) => "Unknown sheet: "@,
            CodecError::InvalidReference(_) => "Invalid reference: "@,
            CodecError::InvalidEnumValue(_) => "Invalid value: "@,
            CodecError::MissingRequiredField(_) => "Missing required field: "@,
            CodecError::UnsupportedValueType(_) => "Unsupported value type: "@,
            CodecError::InvalidDateFormat(_) => "Invalid ISO date or date-time: "@,
            CodecError::NumericOverflow => "Numeric overflow"@,
            CodecError::ResourceNotFound(_) => "Resource not found: "@,
            CodecError::UnderlyingIOFailure(_) => "I/O failure: "@,
        }
    }

    /// A descriptive message: the heading of the kind, then the carried text.
    pub fn message(&self) -> (out: String)
        ensures
            out@ == self.heading() + self.detail(),
    {
        match self {
            CodecError::UnknownSheet(s) => String::from_str("Unknown sheet: ").concat(s.as_str()),
            CodecError::InvalidReference(s) => String::from_str("Invalid reference: ").concat(
                s.as_str(),
            ),
            CodecError::InvalidEnumValue(s) => String::from_str("Invalid value: ").concat(
                s.as_str(),
            ),
            CodecError::MissingRequiredField(s) => String::from_str(
                "Missing required field: ",
            ).concat(s.as_str()),
            CodecError::UnsupportedValueType(s) => String::from_str(
                "Unsupported value type: ",
            ).concat(s.as_str()),
            CodecError::InvalidDateFormat(s) => String::from_str(
                "Invalid ISO date or date-time: ",
            ).concat(s.as_str()),
            CodecError::NumericOverflow => String::from_str("Numeric overflow"),
            CodecError::ResourceNotFound(s) => String::from_str("Resource not found: ").concat(
                s.as_str(),
            ),
            CodecError::UnderlyingIOFailure(s) => String::from_str("I/O failure: ").concat(
                s.as_str(),
            ),
        }
    }
}

} // verus!
