//! Bootstraps and supervises a local Tor expert-bundle installation:
//! resolving which release version to use, computing the download and
//! cache layout for the running platform, and supervising the launched
//! binary until it reports readiness on its log stream.

use vstd::prelude::*;

pub mod downloader;
pub mod target;
pub mod text;
pub mod tor;
pub mod version;

pub use crate::downloader::{DownloadOptions, Downloader};
pub use crate::target::Target;
pub use crate::tor::Tor;

verus! {

/// Fallback release version used when the caller pins nothing and the
/// remote index is not consulted.
pub const DEFAULT_VERSION: &'static str = "14.0.4";

/// Name of the cache subdirectory that holds downloaded bundles.
pub const DOWNLOAD_DIRECTORY: &'static str = "RustTorProject";

/// Subdirectory of the bundle that contains the `tor` binary.
pub const DOWNLOAD_DIRECTORY_TOR: &'static str = "tor";

/// Policy for choosing a release version: an explicit pin, the newest
/// published entry, or the newest entry without a pre-release marker.
#[derive(Debug, Clone)]
pub enum VersionSelection {
    Version(String),
    Latest,
    Stable,
}

impl Default for VersionSelection {
    /// The default selection pins `DEFAULT_VERSION`, so the system works
    /// with no network access to the index.
    fn default() -> (r: VersionSelection)
        ensures
            r matches VersionSelection::Version(v) && v@ == DEFAULT_VERSION@,
    {
        VersionSelection::Version(DEFAULT_VERSION.to_owned())
    }
}

} // verus!
