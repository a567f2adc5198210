use vstd::prelude::*;
use crate::PipelineError;
use crate::convert::{internal_name, spec_internal_name};
use crate::search::{build_search_body, spec_search_body, SearchQuery};
use crate::xml::{resolve_search_response, spec_resolve};

verus! {

/// What the transport handed back for one request: the response payload, or
/// a transport-level failure (network error, or a non-success status).
pub enum FetchOutcome<T> {
    Success(T),
    TransportFailure,
}

/// What the runner's decode attempt yielded: the serialized workbook, or a
/// refusal — the decoder rejected the bytes, the decoded workbook could not
/// be built into a model, or the attempt aborted and the runner fenced it.
pub enum DecodeOutcome {
    Serialized(Vec<u8>),
    Refused,
}

/// The one piece of outward work the pipeline asks its runner to perform
/// next, or the run's terminal outcome. The runner performs the work and
/// hands the outcome back; it never decides anything itself.
pub enum PipelineStep {
    /// Issue the property-search request: method `SEARCH` against the fixed
    /// collection endpoint, with the given body.
    Search { body: String },
    /// Issue an authenticated GET to the resolved path, remembering the
    /// resolved display name for the decode stage.
    Download { path: String, display_name: String },
    /// Decode the downloaded bytes as an xlsx workbook under the derived
    /// internal name (and the pipeline's fixed locale, timezone and
    /// language), and serialize the result. The decode stands with the
    /// runner because the decoding library can abort on crafted bytes; the
    /// runner must fence it and hand an abort back as a refusal.
    Decode { bytes: Vec<u8>, name: String },
    /// The run succeeded with the serialized workbook.
    Finished { workbook: Vec<u8> },
    /// The run failed; nothing is retried.
    Failed { error: PipelineError },
}

/// The HTTP method of the property-search request.
pub const SEARCH_METHOD: &'static str = "SEARCH";

/// The collection endpoint the property-search request is sent to.
pub const SEARCH_ENDPOINT: &'static str = "/remote.php/dav/";

/// Starts one pipeline run: the first step is always the search request,
/// with the body `spec_search_body` states for the query.
pub fn start(query: &SearchQuery) -> (r: PipelineStep)
    ensures
        r matches PipelineStep::Search { body } && body@ == spec_search_body(
            query.file_id as int,
            query.user_scope@,
        ),
{
    PipelineStep::Search { body: build_search_body(query) }
}

/// Decides the step after the search request. A transport failure is
/// terminal with `UpstreamUnavailable` and nothing is downloaded. A received
/// body is resolved as `spec_resolve` states: its failures are terminal with
/// the error `spec_resolve` gives (again nothing is downloaded), and its
/// success yields the download step for exactly the resolved path and
/// display name.
pub fn on_search_response(outcome: FetchOutcome<String>) -> (r: PipelineStep)
    ensures
        outcome is TransportFailure ==> (r matches PipelineStep::Failed { error }
            && error == PipelineError::UpstreamUnavailable),
        outcome matches FetchOutcome::Success(body) ==> match spec_resolve(body@) {
            Ok(p) => r matches PipelineStep::Download { path, display_name } && path@ == p.0
                && display_name@ == p.1,
            Err(e) => r matches PipelineStep::Failed { error } && error == e,
        },
{
    match outcome {
        FetchOutcome::TransportFailure => PipelineStep::Failed {
            error: PipelineError::UpstreamUnavailable,
        },
        FetchOutcome::Success(body) => match resolve_search_response(body.as_str()) {
            Err(e) => PipelineStep::Failed { error: e },
            Ok(found) => PipelineStep::Download {
                path: found.download_path,
                display_name: found.display_name,
            },
        },
    }
}

/// Decides the step after the download. A transport failure is terminal with
/// `UpstreamUnavailable` and nothing is decoded. Received bytes go to the
/// decode step exactly as they arrived, under exactly the internal name
/// `spec_internal_name` derives from the display name.
pub fn on_download_response(display_name: &str, outcome: FetchOutcome<Vec<u8>>) -> (r:
    PipelineStep)
    ensures
        outcome is TransportFailure ==> (r matches PipelineStep::Failed { error }
            && error == PipelineError::UpstreamUnavailable),
        outcome matches FetchOutcome::Success(received) ==> (r matches PipelineStep::Decode {
            bytes,
            name,
        } && bytes == received && name@ == spec_internal_name(display_name@)),
{
    match outcome {
        FetchOutcome::TransportFailure => PipelineStep::Failed {
            error: PipelineError::UpstreamUnavailable,
        },
        FetchOutcome::Success(received) => PipelineStep::Decode {
            bytes: received,
            name: internal_name(display_name),
        },
    }
}

/// Decides the run's end from the decode attempt: serialized bytes finish
/// the run with exactly those bytes, and a refusal is terminal with
/// `DecodeFailure`.
pub fn on_decode_outcome(outcome: DecodeOutcome) -> (r: PipelineStep)
    ensures
        outcome matches DecodeOutcome::Serialized(w) ==> (r matches PipelineStep::Finished {
            workbook,
        } && workbook == w),
        outcome is Refused ==> (r matches PipelineStep::Failed { error } && error
            == PipelineError::DecodeFailure),
{
    match outcome {
        DecodeOutcome::Serialized(workbook) => PipelineStep::Finished { workbook },
        DecodeOutcome::Refused => PipelineStep::Failed { error: PipelineError::DecodeFailure },
    }
}

} // verus!
