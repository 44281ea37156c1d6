//! The error type returned by the parsing functions.

use vstd::prelude::*;
use vstd::string::StringExecFns;

verus! {

/// The cause of a failure to parse a single byte field.
#[derive(Clone, Copy, Debug, PartialEq, Eq, Structural)]
pub enum ByteParseError {
    /// The field was empty.
    Empty,
    /// A character of the field is not a digit of the radix.
    InvalidDigit,
    /// The field's numeric value exceeds one byte.
    PosOverflow,
}

/// The `Error` type for this crate.
#[derive(Clone, Copy, Debug, PartialEq, Eq, Structural)]
pub enum Error {
    /// Invalid representation of a binary string, or could not detect encoding.
    InvalidRepresentation,
    /// A representation is missing the leading radix prefix marker.
    MissingRadixPrefix,
    /// A representation has an unrecognized radix character after the marker.
    InvalidRadixPrefix,
    /// A string representation is not correctly enclosed in double quotes.
    InvalidStringQuotes,
    /// An array representation is not correctly enclosed in brackets `[` and `]`.
    InvalidArrayBrackets,
    /// A single byte field could not be parsed; the source says why.
    InvalidByteRepresentation { source: ByteParseError },
    /// The requested transformation is not provided.
    Unimplemented,
}

/// Construct an `Error` from the cause of a byte-field parse failure.
pub fn parse_error(source: ByteParseError) -> (r: Error)
    ensures
        r == (Error::InvalidByteRepresentation { source }),
{
    Error::InvalidByteRepresentation { source }
}

impl From<ByteParseError> for Error {
    /// Wrap the cause of a byte-field parse failure.
    fn from(source: ByteParseError) -> (r: Self) {
        Error::InvalidByteRepresentation { source }
    }
}

impl vstd::std_specs::convert::FromSpecImpl<ByteParseError> for Error {
    open spec fn obeys_from_spec() -> bool {
        true
    }

    open spec fn from_spec(source: ByteParseError) -> Self {
        Error::InvalidByteRepresentation { source }
    }
}

/// The human-readable description of a byte-field parse failure.
pub open spec fn spec_byte_parse_message(e: ByteParseError) -> Seq<char> {
    match e {
        ByteParseError::Empty => "cannot parse integer from empty string"@,
        ByteParseError::InvalidDigit => "invalid digit found in string"@,
        ByteParseError::PosOverflow => "number too large to fit in target type"@,
    }
}

/// The human-readable description of an error.
pub open spec fn spec_message(e: Error) -> Seq<char> {
    match e {
        Error::InvalidRepresentation => "The binary string representation is invalid."@,
        Error::MissingRadixPrefix => "The binary string representation is missing a radix prefix."@,
        Error::InvalidRadixPrefix => "The binary string representation has an invalid radix prefix."@,
        Error::InvalidStringQuotes => "The binary string representation must be correctly enclosed in double quotes: '\"'."@,
        Error::InvalidArrayBrackets => "The binary array representation must be correctly enclosed in brackets: '[' and ']'."@,
        Error::InvalidByteRepresentation { source } => "Failed to parse individual byte representation; source error: "@
            + spec_byte_parse_message(source),
        Error::Unimplemented => "The requested transformation is not implemented."@,
    }
}

impl ByteParseError {
    /// A human-readable description of the failure.
    pub fn message(&self) -> (r: String)
        ensures
            r@ == spec_byte_parse_message(*self),
    {
        match self {
            ByteParseError::Empty => String::from_str("cannot parse integer from empty string"),
            ByteParseError::InvalidDigit => String::from_str("invalid digit found in string"),
            ByteParseError::PosOverflow => String::from_str(
                "number too large to fit in target type",
            ),
        }
    }
}

impl Error {
    /// A human-readable description of the error.
    pub fn message(&self) -> (r: String)
        ensures
            r@ == spec_message(*self),
    {
        match self {
            Error::InvalidRepresentation => String::from_str(
                "The binary string representation is invalid.",
            ),
            Error::MissingRadixPrefix => String::from_str(
                "The binary string representation is missing a radix prefix.",
            ),
            Error::InvalidRadixPrefix => String::from_str(
                "The binary string representation has an invalid radix prefix.",
            ),
            Error::InvalidStringQuotes => String::from_str(
                "The binary string representation must be correctly enclosed in double quotes: '\"'.",
            ),
            Error::InvalidArrayBrackets => String::from_str(
                "The binary array representation must be correctly enclosed in brackets: '[' and ']'.",
            ),
            Error::InvalidByteRepresentation { source } => {
                let mut out = String::from_str(
                    "Failed to parse individual byte representation; source error: ",
                );
                let tail = source.message();
                out.append(tail.as_str());
                out
            },
            Error::Unimplemented => String::from_str(
                "The requested transformation is not implemented.",
            ),
        }
    }
}

} // verus!
