//! Correlation-tracked event model and sting/punishment ledger for a
//! moderation platform.
//!
//! The crate holds the ledger entities (stings and punishments) with their
//! lifecycle states, the per-user aggregation of sting totals, the typed
//! event envelope with its correlation protocol, and the declarative
//! setting-schema descriptors, all with verified contracts.

use vstd::prelude::*;

pub mod ar_event;
pub mod correlation;
pub mod gen;
pub mod punishments;
pub mod setting;
pub mod stings;
pub mod template_page;
pub mod text;
pub mod userinfo;
pub mod value;

verus! {

/// Why a textual encoding of a target or a ledger state was rejected.
/// Each variant carries the offending input.
#[derive(Debug, Clone, PartialEq, Eq)]
pub enum ParseError {
    /// The text is neither `"system"` nor `"user:"` followed by a user id.
    InvalidFormat(String),
    /// The text after `"user:"` is not a decimal `u64`.
    InvalidUserId(String),
    /// The text names no ledger state.
    InvalidState(String),
}

impl ParseError {
    /// The offending input the error was raised on.
    pub fn input(&self) -> (r: &String)
        ensures
            (match self {
                ParseError::InvalidFormat(s) => r@ == s@,
                ParseError::InvalidUserId(s) => r@ == s@,
                ParseError::InvalidState(s) => r@ == s@,
            }),
    {
        match self {
            ParseError::InvalidFormat(s) => s,
            ParseError::InvalidUserId(s) => s,
            ParseError::InvalidState(s) => s,
        }
    }
}

/// Why an event payload could not be converted to a structured value.
///
/// Every payload the crate can construct converts successfully; the type
/// exists so that conversion surfaces failure instead of panicking.
#[derive(Debug, Clone, PartialEq, Eq)]
pub enum SerializationError {
    /// The payload holds data the structured value model cannot represent.
    Unrepresentable,
}

} // verus!
