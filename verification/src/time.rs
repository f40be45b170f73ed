//! Timestamp normalization: a well-formed RFC-3339 date-time becomes its Unix
//! epoch seconds in decimal; any other string passes through unchanged so the
//! remote API can interpret its own relative expressions.

use vstd::prelude::*;

use crate::numfmt::{dec_int, format_i64};

verus! {

/// The epoch seconds of a string that parses as an RFC-3339 date-time, if it
/// is one. The parse outcome depends on the characters alone.
pub uninterp spec fn rfc3339_epoch_of(s: Seq<char>) -> Option<i64>;

/// Relies on chrono::DateTime::parse_from_rfc3339 and
/// chrono::DateTime::timestamp: whether a string parses as an RFC-3339
/// date-time, and the epoch seconds of the instant it denotes, are functions
/// of the characters alone.
#[verifier::external_body]
fn parse_rfc3339_epoch(s: &str) -> (r: Option<i64>)
    ensures
        r == rfc3339_epoch_of(s@),
{
    match chrono::DateTime::parse_from_rfc3339(s) {
        Ok(dt) => Some(dt.timestamp()),
        Err(_) => None,
    }
}

/// What a user-supplied time bound normalizes to.
pub open spec fn norm_time(s: Seq<char>) -> Seq<char> {
    match rfc3339_epoch_of(s) {
        Some(t) => dec_int(t as int),
        None => s,
    }
}

/// Normalizes a time bound: the decimal epoch seconds for an RFC-3339
/// date-time, the original string for anything else. Never an error.
pub fn encode_time(s: &String) -> (r: String)
    ensures
        r@ == norm_time(s@),
{
    match parse_rfc3339_epoch(s.as_str()) {
        Some(t) => format_i64(t),
        None => s.clone(),
    }
}

} // verus!
