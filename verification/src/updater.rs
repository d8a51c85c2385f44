//! The update manifest.

use vstd::prelude::*;

verus! {

/// What an update server says of the newest release.
#[derive(Debug, Clone)]
pub struct UpdateManifest {
    pub version: String,
    pub notes: Option<String>,
    /// Where the release is fetched from.
    pub url: String,
    /// The hexadecimal SHA-256 digest of the release, where the server
    /// names one.
    pub sha256: Option<String>,
}

} // verus!
