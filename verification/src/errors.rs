//! The failure taxonomy of resolution and the plain-text diagnostics shown to
//! callers. Every failure is detected where it occurs, translated at once
//! into a response outcome, and never retried.

use vstd::prelude::*;

verus! {

/// A typed resolution failure. All three variants are per-request: none
/// affects other in-flight requests.
#[derive(Debug)]
pub enum ResolveError {
    /// The username contains `../`; reported with a fixed message and
    /// reached before any filesystem or network access.
    RejectedIdentifier,
    /// The local file could not be opened; `detail` is the underlying
    /// I/O error text, included in the diagnostic.
    AssetNotFound { detail: String },
    /// The remote fetch failed (transport error or non-success status);
    /// surfaced as a per-request error rather than a process fault.
    UpstreamFailure { detail: String },
}

/// The plain-text body reported to the caller for a failure.
pub open spec fn error_message(e: ResolveError) -> Seq<char> {
    match e {
        ResolveError::RejectedIdentifier => "forbidden username provided"@,
        ResolveError::AssetNotFound { detail } => "File not found: "@ + detail@,
        ResolveError::UpstreamFailure { detail } => "upstream fetch failed: "@ + detail@,
    }
}

/// Renders the caller-facing diagnostic for a failure.
pub fn error_body(e: &ResolveError) -> (r: String)
    ensures
        r@ == error_message(*e),
{
    match e {
        ResolveError::RejectedIdentifier => "forbidden username provided".to_owned(),
        ResolveError::AssetNotFound { detail } => {
            let mut m = "File not found: ".to_owned();
            m.append(detail.as_str());
            m
        },
        ResolveError::UpstreamFailure { detail } => {
            let mut m = "upstream fetch failed: ".to_owned();
            m.append(detail.as_str());
            m
        },
    }
}

} // verus!
