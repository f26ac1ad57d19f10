//! The typed outcome of one successful classification.

use vstd::prelude::*;

use crate::filename::WindowsCompatibleFilename;
use crate::mime_type::MimeType;
use crate::request_id::fresh_uuid_hyphenated;
use crate::request_id::uuid_parse_ok;
use crate::request_id::RequestId;

verus! {

/// Relies on chrono::Utc::now and its millisecond timestamp; the value
/// depends on the clock, so nothing is promised of it. chrono's now
/// panics when the system clock is set before the Unix epoch — an
/// environmental condition, not an input.
#[verifier::external_body]
pub(crate) fn now_unix_millis() -> (r: i64) {
    chrono::Utc::now().timestamp_millis()
}

/// A classification outcome: MIME type and description, together with
/// the identifiers of the operation that produced it and a timestamp.
/// Two outcomes are the same result only if their own identifiers match.
#[derive(Clone, Debug)]
pub struct MagicResult {
    id: String,
    request_id: RequestId,
    filename: WindowsCompatibleFilename,
    mime_type: MimeType,
    description: String,
    encoding: Option<String>,
    analyzed_at: i64,
}

impl MagicResult {
    pub closed spec fn spec_id(&self) -> Seq<char> {
        self.id@
    }

    pub closed spec fn spec_request_id(&self) -> RequestId {
        self.request_id
    }

    pub closed spec fn spec_filename(&self) -> WindowsCompatibleFilename {
        self.filename
    }

    pub closed spec fn spec_mime_type(&self) -> MimeType {
        self.mime_type
    }

    pub closed spec fn spec_description(&self) -> Seq<char> {
        self.description@
    }

    pub closed spec fn spec_encoding(&self) -> Option<String> {
        self.encoding
    }

    pub closed spec fn spec_analyzed_at(&self) -> i64 {
        self.analyzed_at
    }

    /// Builds an outcome around the engine's answer. The identifier is
    /// fresh and the timestamp is taken from the clock; everything else
    /// is carried through unchanged, with no encoding label.
    pub fn new(
        request_id: RequestId,
        filename: WindowsCompatibleFilename,
        mime_type: MimeType,
        description: String,
    ) -> (r: Self)
        ensures
            r.spec_request_id() == request_id,
            r.spec_filename() == filename,
            r.spec_mime_type() == mime_type,
            r.spec_description() == description@,
            r.spec_encoding() is None,
            uuid_parse_ok(r.spec_id()),
    {
        MagicResult {
            id: fresh_uuid_hyphenated(),
            request_id,
            filename,
            mime_type,
            description,
            encoding: None,
            analyzed_at: now_unix_millis(),
        }
    }

    /// Replaces the encoding label, leaving every other field unchanged.
    pub fn with_encoding(self, encoding: Option<String>) -> (r: Self)
        ensures
            r.spec_encoding() == encoding,
            r.spec_id() == self.spec_id(),
            r.spec_request_id() == self.spec_request_id(),
            r.spec_filename() == self.spec_filename(),
            r.spec_mime_type() == self.spec_mime_type(),
            r.spec_description() == self.spec_description(),
            r.spec_analyzed_at() == self.spec_analyzed_at(),
    {
        MagicResult { encoding, ..self }
    }

    pub fn id(&self) -> (r: &str)
        ensures
            r@ == self.spec_id(),
    {
        self.id.as_str()
    }

    pub fn request_id(&self) -> (r: &RequestId)
        ensures
            *r == self.spec_request_id(),
    {
        &self.request_id
    }

    pub fn filename(&self) -> (r: &WindowsCompatibleFilename)
        ensures
            *r == self.spec_filename(),
    {
        &self.filename
    }

    pub fn mime_type(&self) -> (r: &MimeType)
        ensures
            *r == self.spec_mime_type(),
    {
        &self.mime_type
    }

    pub fn description(&self) -> (r: &str)
        ensures
            r@ == self.spec_description(),
    {
        self.description.as_str()
    }

    pub fn encoding(&self) -> (r: Option<&str>)
        ensures
            r is Some <==> self.spec_encoding() is Some,
            r matches Some(e) ==> e@ == self.spec_encoding()->0@,
    {
        match &self.encoding {
            Some(e) => Some(e.as_str()),
            None => None,
        }
    }

    pub fn analyzed_at(&self) -> (r: i64)
        ensures
            r == self.spec_analyzed_at(),
    {
        self.analyzed_at
    }
}

/// Outcome identity: two outcomes are equal exactly when their own
/// identifiers are equal, whatever their contents.
impl PartialEq for MagicResult {
    fn eq(&self, other: &Self) -> (r: bool) {
        self.id == other.id
    }
}

impl Eq for MagicResult {

}

impl vstd::std_specs::cmp::PartialEqSpecImpl for MagicResult {
    open spec fn obeys_eq_spec() -> bool {
        true
    }

    open spec fn eq_spec(&self, other: &Self) -> bool {
        self.spec_id() == other.spec_id()
    }
}

} // verus!
