//! Bidirectional semantic transcoder between an ISO 20022-style structured
//! account statement document and a SWIFT MT940-style flat statement
//! message, with the shared normalization utilities for dates, decimal
//! amounts and credit/debit indicators.
//!
//! The raw text codecs (XML, MT940 block text, CSV) and the command-line
//! surface live outside this crate; the crate works on the two structured
//! models and states, for every public function, exactly which output each
//! input produces and on which inputs each error is raised.

pub mod amounts;
pub mod args;
pub mod cam_struct;
pub mod camt053;
mod clock;
pub mod dates;
pub mod error;
pub mod indicators;
pub mod laws;
pub mod mt_struct;
pub mod mt940_parsing;
pub mod strutil;

pub use error::ParsingError;
