//! The per-request dispatcher. A request moves through three states —
//! validating, resolving, responding — and terminates on the first failure
//! or once a source is found.
//!
//! The host performing the actual I/O first calls [`handle_request`]; unless
//! the username was rejected outright, it carries out the returned action
//! (one remote fetch or one local file open), reports what happened to
//! [`finish_remote`] or [`finish_local`], and renders the outcome with
//! [`respond`].

use vstd::prelude::*;

use crate::AssetKind;
use crate::ObtainingMethod;
use crate::Strategy;
use crate::errors::ResolveError;
use crate::errors::error_message;
use crate::errors::error_body;
use crate::identifier::contains_traversal;
use crate::identifier::validate;
use crate::paths::local_path;
use crate::paths::local_path_of;
use crate::paths::remote_url;
use crate::paths::remote_url_of;
use crate::select;
use crate::strategy_of;

verus! {

/// What the host must do next for one request: answer at once, or perform
/// the single I/O action the configuration calls for.
pub enum Step {
    /// The username was rejected; respond without touching disk or network.
    Fail(ResolveError),
    /// Issue one HTTP GET to this URL and hand the result to `finish_remote`.
    FetchRemote(String),
    /// Open this local file for streaming and hand the result to `finish_local`.
    OpenLocal(String),
}

/// A source of image bytes found for a request.
pub enum ResolvedSource {
    /// The full remote response body, already in memory.
    ImageBytes(Vec<u8>),
    /// A local file at this path, opened by the host and streamed
    /// incrementally as the response body is consumed.
    FileStream(String),
}

/// What is written back to the caller: image bytes on success, a plain-text
/// diagnostic on failure.
pub struct HttpResponse {
    /// Whether the response carries a success status.
    pub success: bool,
    /// The response body.
    pub body: ResponseBody,
}

/// The body of a response.
pub enum ResponseBody {
    /// A resolved source, streamed back as raw image bytes.
    Source(ResolvedSource),
    /// A plain-text message (a failure diagnostic, or the root greeting).
    Text(String),
}

/// Decides everything about a request that does not require I/O: validates
/// the username, selects the strategy for the asset kind under the
/// configured method, and builds the URL or storage path to act on.
///
/// A username containing `../` is rejected here, so no filesystem or
/// network action is ever issued for it.
pub fn handle_request(kind: AssetKind, method: ObtainingMethod, username: &str) -> (r: Step)
    ensures
        r matches Step::Fail(e) <==> contains_traversal(username@),
        r matches Step::Fail(e) ==> e is RejectedIdentifier,
        r matches Step::FetchRemote(url) <==> !contains_traversal(username@)
            && strategy_of(kind, method) is Remote,
        r matches Step::FetchRemote(url) ==> url@ == remote_url_of(username@),
        r matches Step::OpenLocal(path) <==> !contains_traversal(username@)
            && strategy_of(kind, method) is LocalFile,
        r matches Step::OpenLocal(path) ==> path@ == local_path_of(kind, username@),
{
    let name = match validate(username) {
        Ok(name) => name,
        Err(e) => {
            return Step::Fail(e);
        },
    };
    match select(kind, method) {
        Strategy::Remote => Step::FetchRemote(remote_url(name)),
        Strategy::LocalFile => Step::OpenLocal(local_path(kind, name)),
    }
}

/// Concludes a remote fetch. A fetched body is the resolved source; a
/// transport or upstream failure becomes a typed per-request error carrying
/// the underlying error text.
pub fn finish_remote(fetched: Result<Vec<u8>, String>) -> (r: Result<ResolvedSource, ResolveError>)
    ensures
        r is Ok <==> fetched is Ok,
        fetched matches Ok(bytes) ==> (r matches Ok(s)
            && s matches ResolvedSource::ImageBytes(b) && b@ == bytes@),
        fetched matches Err(detail) ==> (r matches Err(e)
            && e matches ResolveError::UpstreamFailure { detail: d } && d@ == detail@),
{
    match fetched {
        Ok(bytes) => Ok(ResolvedSource::ImageBytes(bytes)),
        Err(detail) => Err(ResolveError::UpstreamFailure { detail }),
    }
}

/// Concludes a local file open at `path`. `open_error` is `None` when the
/// open succeeded, in which case the file is streamed from that path; any
/// open failure becomes a not-found error carrying the I/O error text.
pub fn finish_local(path: String, open_error: Option<String>) -> (r: Result<
    ResolvedSource,
    ResolveError,
>)
    ensures
        r is Ok <==> open_error is None,
        open_error is None ==> (r matches Ok(s)
            && s matches ResolvedSource::FileStream(p) && p@ == path@),
        open_error matches Some(detail) ==> (r matches Err(e)
            && e matches ResolveError::AssetNotFound { detail: d } && d@ == detail@),
{
    match open_error {
        None => Ok(ResolvedSource::FileStream(path)),
        Some(detail) => Err(ResolveError::AssetNotFound { detail }),
    }
}

/// Assembles the HTTP outcome: a success response streaming the resolved
/// source, or an error response whose body is the failure's diagnostic.
pub fn respond(outcome: Result<ResolvedSource, ResolveError>) -> (r: HttpResponse)
    ensures
        r.success <==> outcome is Ok,
        outcome matches Ok(s) ==> r.body matches ResponseBody::Source(src) && src == s,
        outcome matches Err(e) ==> (r.body matches ResponseBody::Text(m)
            && m@ == error_message(e)),
{
    match outcome {
        Ok(source) => HttpResponse { success: true, body: ResponseBody::Source(source) },
        Err(e) => HttpResponse { success: false, body: ResponseBody::Text(error_body(&e)) },
    }
}

/// The fixed greeting served at the root endpoint. It takes no input, so
/// it is the same whatever the configuration.
pub fn greeting() -> (r: &'static str)
    ensures
        r@ == "Hello, World!"@,
{
    "Hello, World!"
}

} // verus!
