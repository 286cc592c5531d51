//! The error vocabulary shared by both transcoders.

use vstd::prelude::*;

verus! {

/// One conversion either returns a fully populated target model or fails with
/// exactly one of these errors; no partial result is ever handed back.
#[derive(Debug)]
pub enum ParsingError {
    /// A date literal matched neither the combined nor the bare form.
    ParseDateError(String),
    /// A structural problem in the XML representation (raised by the codec).
    XmlError(String),
    /// An input/output failure (raised by the codec).
    IoError(String),
    /// A field that the target format requires is absent from the source.
    MissingField(String),
    /// A decimal amount literal could not be parsed.
    InvalidAmount(String),
    /// A credit/debit indicator outside the two-value vocabulary.
    InvalidIndicator(String),
    /// A catch-all structural mismatch between the two models.
    ConversionError(String),
}

/// The human-readable rendering of an error: its kind as a short label,
/// then its detail text.
pub open spec fn message_spec(e: ParsingError) -> Seq<char> {
    match e {
        ParsingError::ParseDateError(s) => "Date parsing error: "@ + s@,
        ParsingError::XmlError(s) => "XML error: "@ + s@,
        ParsingError::IoError(s) => "IO error: "@ + s@,
        ParsingError::MissingField(s) => "Missing field: "@ + s@,
        ParsingError::InvalidAmount(s) => "Invalid amount: "@ + s@,
        ParsingError::InvalidIndicator(s) => "Invalid indicator: "@ + s@,
        ParsingError::ConversionError(s) => "Conversion error: "@ + s@,
    }
}

impl ParsingError {
    /// Renders the error for display to a user.
    pub fn message(&self) -> (r: String)
        ensures
            r@ == message_spec(*self),
    {
        match self {
            ParsingError::ParseDateError(s) => String::from_str("Date parsing error: ").concat(
                s.as_str(),
            ),
            ParsingError::XmlError(s) => String::from_str("XML error: ").concat(s.as_str()),
            ParsingError::IoError(s) => String::from_str("IO error: ").concat(s.as_str()),
            ParsingError::MissingField(s) => String::from_str("Missing field: ").concat(
                s.as_str(),
            ),
            ParsingError::InvalidAmount(s) => String::from_str("Invalid amount: ").concat(
                s.as_str(),
            ),
            ParsingError::InvalidIndicator(s) => String::from_str("Invalid indicator: ").concat(
                s.as_str(),
            ),
            ParsingError::ConversionError(s) => String::from_str("Conversion error: ").concat(
                s.as_str(),
            ),
        }
    }
}

} // verus!
