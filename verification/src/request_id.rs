//! Correlation identifiers threaded through one logical operation.

use vstd::prelude::*;

use crate::errors::ValidationError;

verus! {

/// Whether `uuid::Uuid::parse_str` accepts the string; the outcome
/// depends on the characters alone.
pub uninterp spec fn uuid_parse_ok(s: Seq<char>) -> bool;

/// Relies on uuid::Uuid::parse_str: acceptance is a function of the
/// characters alone.
#[verifier::external_body]
fn uuid_is_valid(s: &str) -> (r: bool)
    ensures
        r == uuid_parse_ok(s@),
{
    uuid::Uuid::parse_str(s).is_ok()
}

/// Relies on uuid::Uuid::new_v4 and its hyphenated rendering: 36
/// characters that uuid::Uuid::parse_str accepts back.
#[verifier::external_body]
pub(crate) fn fresh_uuid_hyphenated() -> (r: String)
    ensures
        r@.len() == 36,
        uuid_parse_ok(r@),
{
    uuid::Uuid::new_v4().to_string()
}

/// An opaque identifier for one inbound operation: either generated, or
/// accepted from the caller after validation.
#[derive(Clone, Debug, PartialEq, Eq)]
pub struct RequestId {
    inner: String,
}

impl View for RequestId {
    type V = Seq<char>;

    closed spec fn view(&self) -> Seq<char> {
        self.inner@
    }
}

impl RequestId {
    /// A fresh identifier; always well-formed.
    pub fn generate() -> (r: Self)
        ensures
            uuid_parse_ok(r@),
            r@.len() == 36,
    {
        RequestId { inner: fresh_uuid_hyphenated() }
    }

    /// Accepts exactly the strings the identifier parser accepts; any
    /// other input is an invalid-character failure.
    pub fn parse(s: &str) -> (r: Result<Self, ValidationError>)
        ensures
            r is Ok <==> uuid_parse_ok(s@),
            r matches Ok(id) ==> id@ == s@,
            r matches Err(e) ==> e == ValidationError::InvalidCharacter,
    {
        if uuid_is_valid(s) {
            Ok(RequestId { inner: s.to_owned() })
        } else {
            Err(ValidationError::InvalidCharacter)
        }
    }

    /// The inherent counterpart of the standard conversion from `&str`.
    pub fn try_from(value: &str) -> (r: Result<Self, ValidationError>)
        ensures
            r is Ok <==> uuid_parse_ok(value@),
            r matches Ok(id) ==> id@ == value@,
            r matches Err(e) ==> e == ValidationError::InvalidCharacter,
    {
        Self::parse(value)
    }

    pub fn as_str(&self) -> (r: &str)
        ensures
            r@ == self@,
    {
        self.inner.as_str()
    }
}

} // verus!
