//! Resolution core for a Minecraft-style skin and cloak texture server.
//!
//! For each incoming request the server must decide, from an immutable
//! configuration, whether the requested texture comes from a remote lookup
//! service or from local storage, reject path-traversal attempts, and map
//! every failure to a fixed plain-text diagnostic. That decision logic is
//! pure and lives here, fully verified; the surrounding HTTP, network and
//! filesystem plumbing stays outside the library and acts on the plans and
//! outcomes this crate produces.

use vstd::prelude::*;

pub mod errors;
pub mod handler;
pub mod identifier;
pub mod paths;

pub use errors::ResolveError;
pub use handler::{HttpResponse, ResolvedSource, ResponseBody, Step};
pub use handler::{finish_local, finish_remote, greeting, handle_request, respond};
pub use identifier::validate;
pub use paths::{local_path, remote_url};

verus! {

/// How textures are sourced, fixed once at startup for the process lifetime.
#[derive(Clone, Copy, Debug, PartialEq, Eq, Structural)]
pub enum ObtainingMethod {
    /// Both skins and cloaks come from the remote lookup service.
    License,
    /// Both skins and cloaks come from local storage.
    Local,
    /// Skins come from the remote service, cloaks from local storage.
    SkinsLicense,
    /// Cloaks come from the remote service, skins from local storage.
    CloaksLicense,
}

/// Which of the two asset routes a request hit.
#[derive(Clone, Copy, Debug, PartialEq, Eq, Structural)]
pub enum AssetKind {
    Skin,
    Cloak,
}

/// Where a single asset is resolved from: the remote service or a local file.
#[derive(Clone, Copy, Debug, PartialEq, Eq, Structural)]
pub enum Strategy {
    Remote,
    LocalFile,
}

/// The source an asset of kind `kind` is taken from under `method`.
///
/// The full table:
///
/// | kind  | License | Local     | SkinsLicense | CloaksLicense |
/// |-------|---------|-----------|--------------|---------------|
/// | Skin  | Remote  | LocalFile | Remote       | LocalFile     |
/// | Cloak | Remote  | LocalFile | LocalFile    | Remote        |
pub open spec fn strategy_of(kind: AssetKind, method: ObtainingMethod) -> Strategy {
    match method {
        ObtainingMethod::License => Strategy::Remote,
        ObtainingMethod::Local => Strategy::LocalFile,
        ObtainingMethod::SkinsLicense => if kind is Skin {
            Strategy::Remote
        } else {
            Strategy::LocalFile
        },
        ObtainingMethod::CloaksLicense => if kind is Cloak {
            Strategy::Remote
        } else {
            Strategy::LocalFile
        },
    }
}

/// Picks the resolution strategy for one asset kind under the configured
/// obtaining method. Total over both enumerations; no error path.
pub fn select(kind: AssetKind, method: ObtainingMethod) -> (r: Strategy)
    ensures
        r == strategy_of(kind, method),
{
    match method {
        ObtainingMethod::License => Strategy::Remote,
        ObtainingMethod::Local => Strategy::LocalFile,
        ObtainingMethod::SkinsLicense => match kind {
            AssetKind::Skin => Strategy::Remote,
            AssetKind::Cloak => Strategy::LocalFile,
        },
        ObtainingMethod::CloaksLicense => match kind {
            AssetKind::Cloak => Strategy::Remote,
            AssetKind::Skin => Strategy::LocalFile,
        },
    }
}

/// The strategy table holds for every combination of asset kind and
/// obtaining method: `License` sends every asset to the remote service and
/// `Local` to local storage, while under `SkinsLicense` and `CloaksLicense`
/// exactly the named kind goes remote — each of the two is the mirror image
/// of the other.
pub proof fn lemma_strategy_table()
    ensures
        forall|k: AssetKind| strategy_of(k, ObtainingMethod::License) is Remote,
        forall|k: AssetKind| strategy_of(k, ObtainingMethod::Local) is LocalFile,
        strategy_of(AssetKind::Skin, ObtainingMethod::SkinsLicense) is Remote,
        strategy_of(AssetKind::Cloak, ObtainingMethod::SkinsLicense) is LocalFile,
        strategy_of(AssetKind::Skin, ObtainingMethod::CloaksLicense) is LocalFile,
        strategy_of(AssetKind::Cloak, ObtainingMethod::CloaksLicense) is Remote,
        forall|k: AssetKind| (strategy_of(k, ObtainingMethod::SkinsLicense) is Remote
            <==> strategy_of(k, ObtainingMethod::CloaksLicense) is LocalFile),
{
}

} // verus!
