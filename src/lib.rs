//! One error type for code that sends mail with lettre: failures of the SMTP
//! transport, of message construction and of address parsing, plus local
//! configuration failures, each with a fixed label and its cause.

mod error;

pub use error::{address_error_text, lettre_error_text, Cause, Error, Result};
