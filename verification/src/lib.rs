use vstd::prelude::*;

pub mod convert;
pub mod pipeline;
pub mod search;
pub mod xml;

verus! {

/// A terminal failure of one pipeline run. Every stage surfaces exactly one
/// of these; nothing is retried.
#[derive(Clone, Copy, Debug, PartialEq, Eq, Structural)]
pub enum PipelineError {
    /// Transport-level failure reaching the storage backend.
    UpstreamUnavailable,
    /// The search response body is not XML the parser accepts.
    MalformedUpstreamResponse,
    /// A required element is absent from a well-formed search response.
    NotFound,
    /// The fetched bytes are not a valid workbook, or the decoded workbook
    /// could not be turned into a queryable model.
    DecodeFailure,
}

} // verus!
