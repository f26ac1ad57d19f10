//! The plain data carried over the service boundary: query parameters in,
//! response bodies out. Serialization lives in the application shell.

use vstd::prelude::*;

use crate::magic_result::MagicResult;

verus! {

/// The query accompanying a byte-stream classification request.
pub struct AnalyzeQuery {
    pub filename: String,
}

/// The query accompanying a sandboxed-path classification request.
pub struct AnalyzePathQuery {
    pub filename: String,
    pub path: String,
}

/// The body of a failure response.
pub struct ErrorResponse {
    pub error: String,
    pub request_id: Option<String>,
}

/// The body of a liveness response.
pub struct HealthResponse {
    pub message: String,
    pub request_id: String,
}

/// The classification part of a success response.
pub struct MagicAnalysisResult {
    pub mime_type: String,
    pub description: String,
}

impl MagicAnalysisResult {
    /// Renders the classification part of an outcome: the MIME type in
    /// its `type/subtype` shape and the description verbatim.
    pub fn of_result(result: &MagicResult) -> (r: Self)
        ensures
            r.mime_type@ == result.spec_mime_type()@.0 + "/"@ + result.spec_mime_type()@.1,
            r.description@ == result.spec_description(),
    {
        MagicAnalysisResult {
            mime_type: result.mime_type().as_str(),
            description: result.description().to_owned(),
        }
    }
}

} // verus!
