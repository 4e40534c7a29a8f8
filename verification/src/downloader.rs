//! The download/cache/extract pipeline for the Tor expert bundle: the
//! canonical archive name, download URL and directory layout derived
//! from a target and a version, and the step-by-step phase machine the
//! embedding program drives when it fetches, stores and unpacks an
//! archive.

use vstd::prelude::*;

verus! {

use vstd::string::StringExecFns;
use crate::{DEFAULT_VERSION, DOWNLOAD_DIRECTORY};
use crate::target::{spec_render, Target};
use crate::text::{join_path, spec_join};

/// Download failure, attributable to one pipeline step.
#[derive(Clone, Copy, PartialEq, Eq, Structural, Debug)]
pub enum DownloadError {
    /// Transport error or non-success response while fetching.
    FetchFailed,
    /// The download directory does not exist and could not be created.
    CacheDirUnavailable,
    /// An archive from an earlier attempt could not be deleted.
    StaleArtifactRemovalFailed,
    /// The archive path was occupied at the moment of creation.
    ArtifactAlreadyExists,
    /// The fetched archive could not be decompressed and unpacked.
    ExtractionFailed,
}

/// Relies on dirs::cache_dir: the platform's per-user cache directory,
/// when the platform defines one and its path is valid Unicode. The
/// result depends on the host environment, so nothing is promised of
/// it.
#[verifier::external_body]
fn host_cache_dir() -> Option<String> {
    match dirs::cache_dir() {
        Some(p) => match p.to_str() {
            Some(s) => Some(s.to_owned()),
            None => None,
        },
        None => None,
    }
}

/// `s` ends with `suffix`.
pub open spec fn spec_ends_with(s: Seq<char>, suffix: Seq<char>) -> bool {
    s.len() >= suffix.len() && s.subrange(s.len() - suffix.len(), s.len() as int) == suffix
}

/// The default download root: the platform cache directory with the
/// bundle subdirectory joined on. Fails with `CacheDirUnavailable` when
/// the platform reports no cache directory.
pub fn default_download_path() -> (r: Result<String, DownloadError>)
    ensures
        r matches Ok(p) ==> spec_ends_with(p@, spec_join(Seq::<char>::empty(), DOWNLOAD_DIRECTORY@)),
        r matches Err(e) ==> e == DownloadError::CacheDirUnavailable,
{
    match host_cache_dir() {
        Some(base) => {
            let p = join_path(base.as_str(), DOWNLOAD_DIRECTORY);
            proof {
                reveal_strlit("/");
                assert(p@.subrange(
                    p@.len() - (DOWNLOAD_DIRECTORY@.len() + 1),
                    p@.len() as int,
                ) =~= spec_join(Seq::<char>::empty(), DOWNLOAD_DIRECTORY@));
            }
            Ok(p)
        },
        None => Err(DownloadError::CacheDirUnavailable),
    }
}

/// Options for building a `Downloader`; each unset field falls back to
/// a default when the downloader is built.
pub struct DownloadOptions {
    pub download_path: Option<String>,
    pub target: Option<Target>,
    pub version: Option<String>,
}

/// The version an option set chooses: the explicit one, or the fixed
/// fallback.
pub open spec fn spec_version_choice(v: Option<String>) -> Seq<char> {
    match v {
        Some(s) => s@,
        None => DEFAULT_VERSION@,
    }
}

/// The target an option set chooses: the explicit one, or the fixed
/// fallback.
pub open spec fn spec_target_choice(t: Option<Target>) -> Target {
    match t {
        Some(t0) => t0,
        None => Target::GnuLinuxX8664,
    }
}

impl DownloadOptions {
    /// Empty options: every field falls back to its default.
    pub fn new() -> (r: DownloadOptions)
        ensures
            r.download_path is None,
            r.target is None,
            r.version is None,
    {
        DownloadOptions { download_path: None, target: None, version: None }
    }

    /// Sets an explicit download root.
    pub fn with_download_path(self, download_path: String) -> (r: DownloadOptions)
        ensures
            r.download_path == Some(download_path),
            r.target == self.target,
            r.version == self.version,
    {
        DownloadOptions { download_path: Some(download_path), ..self }
    }

    /// Sets an explicit build target.
    pub fn with_target(self, target: Target) -> (r: DownloadOptions)
        ensures
            r.target == Some(target),
            r.download_path == self.download_path,
            r.version == self.version,
    {
        DownloadOptions { target: Some(target), ..self }
    }

    /// Sets an explicit release version.
    pub fn with_version(self, version: String) -> (r: DownloadOptions)
        ensures
            r.version == Some(version),
            r.download_path == self.download_path,
            r.target == self.target,
    {
        DownloadOptions { version: Some(version), ..self }
    }

    /// Builds the downloader, filling every unset option with its
    /// default. Fails only when no download root was given and the
    /// platform reports no cache directory.
    pub fn build(self) -> (r: Result<Downloader, DownloadError>)
        ensures
            r matches Ok(d) ==> {
                &&& d.spec_version() == spec_version_choice(self.version)
                &&& d.spec_target() == spec_target_choice(self.target)
            },
            self.download_path matches Some(p) ==> r matches Ok(d) && d.spec_download_path()
                == p@,
            self.download_path is None ==> (r matches Ok(d) ==> spec_ends_with(
                d.spec_download_path(),
                spec_join(Seq::<char>::empty(), DOWNLOAD_DIRECTORY@),
            )),
            r matches Err(e) ==> self.download_path is None && e
                == DownloadError::CacheDirUnavailable,
    {
        let download_path = match self.download_path {
            Some(p) => p,
            None => match default_download_path() {
                Ok(p) => p,
                Err(e) => {
                    return Err(e);
                },
            },
        };
        let target = match self.target {
            Some(t) => t,
            None => Target::default(),
        };
        let version = match self.version {
            Some(v) => v,
            None => DEFAULT_VERSION.to_owned(),
        };
        Ok(Downloader { download_path, target, version })
    }
}

/// Downloads the Tor expert bundle: a fixed target and version, and the
/// directory every derived path is rooted at. All paths and URLs are
/// computed from these three fields, never stored, so they cannot
/// drift out of sync.
pub struct Downloader {
    download_path: String,
    target: Target,
    version: String,
}

/// The archive file name for a rendered target fragment and a version.
pub open spec fn spec_tarball_name(target: Seq<char>, version: Seq<char>) -> Seq<char> {
    "tor-expert-bundle-"@ + target + "-"@ + version + ".tar.gz"@
}

/// The fixed URL of the release archive for a rendered target fragment
/// and a version.
pub open spec fn spec_download_url(target: Seq<char>, version: Seq<char>) -> Seq<char> {
    "https://archive.torproject.org/tor-package-archive/torbrowser/"@ + version + "/"@
        + spec_tarball_name(target, version)
}

impl Downloader {
    /// A downloader with every option defaulted.
    pub fn new() -> (r: Result<Downloader, DownloadError>)
        ensures
            r matches Ok(d) ==> {
                &&& d.spec_version() == DEFAULT_VERSION@
                &&& d.spec_target() == Target::GnuLinuxX8664
                &&& spec_ends_with(
                    d.spec_download_path(),
                    spec_join(Seq::<char>::empty(), DOWNLOAD_DIRECTORY@),
                )
            },
            r matches Err(e) ==> e == DownloadError::CacheDirUnavailable,
    {
        Self::new_with_options(DownloadOptions::new())
    }

    /// A downloader built from explicit options.
    pub fn new_with_options(options: DownloadOptions) -> (r: Result<Downloader, DownloadError>)
        ensures
            r matches Ok(d) ==> {
                &&& d.spec_version() == spec_version_choice(options.version)
                &&& d.spec_target() == spec_target_choice(options.target)
            },
            options.download_path matches Some(p) ==> r matches Ok(d) && d.spec_download_path()
                == p@,
            options.download_path is None ==> (r matches Ok(d) ==> spec_ends_with(
                d.spec_download_path(),
                spec_join(Seq::<char>::empty(), DOWNLOAD_DIRECTORY@),
            )),
            r matches Err(e) ==> options.download_path is None && e
                == DownloadError::CacheDirUnavailable,
    {
        options.build()
    }

    /// The directory every download lands in.
    pub closed spec fn spec_download_path(&self) -> Seq<char> {
        self.download_path@
    }

    /// The build target archives are fetched for.
    pub closed spec fn spec_target(&self) -> Target {
        self.target
    }

    /// The resolved release version archives are fetched for.
    pub closed spec fn spec_version(&self) -> Seq<char> {
        self.version@
    }

    /// The directory every download lands in.
    pub fn download_path(&self) -> (r: &String)
        ensures
            r@ == self.spec_download_path(),
    {
        &self.download_path
    }

    /// The build target archives are fetched for.
    pub fn target(&self) -> (r: Target)
        ensures
            r == self.spec_target(),
    {
        self.target
    }

    /// The resolved release version archives are fetched for.
    pub fn version(&self) -> (r: &String)
        ensures
            r@ == self.spec_version(),
    {
        &self.version
    }

    /// The archive file name for this target and version.
    pub fn tarball_name(&self) -> (r: String)
        ensures
            r@ == spec_tarball_name(spec_render(self.spec_target()), self.spec_version()),
    {
        let mut s: String = "tor-expert-bundle-".to_owned();
        s.append(self.target.render());
        s.append("-");
        s.append(self.version.as_str());
        s.append(".tar.gz");
        proof {
            assert(s@ =~= spec_tarball_name(spec_render(self.spec_target()), self.spec_version()));
        }
        s
    }

    /// The path the fetched archive is written to.
    pub fn download_tarball_path(&self) -> (r: String)
        ensures
            r@ == spec_join(
                self.spec_download_path(),
                spec_tarball_name(spec_render(self.spec_target()), self.spec_version()),
            ),
    {
        let name = self.tarball_name();
        join_path(self.download_path.as_str(), name.as_str())
    }

    /// The URL the archive for this target and version is fetched from.
    /// The template is fixed; the rendered form must match it byte for
    /// byte.
    pub fn download_url(&self) -> (r: String)
        ensures
            r@ == spec_download_url(spec_render(self.spec_target()), self.spec_version()),
    {
        let mut s: String =
            "https://archive.torproject.org/tor-package-archive/torbrowser/".to_owned();
        s.append(self.version.as_str());
        s.append("/");
        let name = self.tarball_name();
        s.append(name.as_str());
        proof {
            assert(s@ =~= spec_download_url(spec_render(self.spec_target()), self.spec_version()));
        }
        s
    }
}

/// The steps of the download pipeline, in the order the embedding
/// program performs them: fetch the archive bytes, ensure the download
/// directory exists, remove a stale archive left by an earlier attempt,
/// write the fetched bytes to a newly created archive file, and unpack
/// it into the download directory.
#[derive(Clone, Copy, PartialEq, Eq, Structural, Debug)]
pub enum DownloadPhase {
    Fetch,
    EnsureDir,
    RemoveStale,
    WriteArchive,
    Extract,
    Done,
}

/// The phase that follows a completed phase.
pub open spec fn spec_next_phase(p: DownloadPhase) -> DownloadPhase {
    match p {
        DownloadPhase::Fetch => DownloadPhase::EnsureDir,
        DownloadPhase::EnsureDir => DownloadPhase::RemoveStale,
        DownloadPhase::RemoveStale => DownloadPhase::WriteArchive,
        DownloadPhase::WriteArchive => DownloadPhase::Extract,
        DownloadPhase::Extract => DownloadPhase::Done,
        DownloadPhase::Done => DownloadPhase::Done,
    }
}

/// The error a failed phase surfaces: each step fails fast with its own
/// attributable error.
pub open spec fn spec_phase_error(p: DownloadPhase) -> DownloadError {
    match p {
        DownloadPhase::Fetch => DownloadError::FetchFailed,
        DownloadPhase::EnsureDir => DownloadError::CacheDirUnavailable,
        DownloadPhase::RemoveStale => DownloadError::StaleArtifactRemovalFailed,
        DownloadPhase::WriteArchive => DownloadError::ArtifactAlreadyExists,
        DownloadPhase::Extract => DownloadError::ExtractionFailed,
        DownloadPhase::Done => DownloadError::ExtractionFailed,
    }
}

/// Advances the pipeline by one step: a phase that succeeded commits
/// and moves to the next phase; one that failed surfaces its own error
/// and nothing else.
pub fn advance_phase(phase: DownloadPhase, succeeded: bool) -> (r: Result<
    DownloadPhase,
    DownloadError,
>)
    requires
        phase != DownloadPhase::Done,
    ensures
        succeeded ==> r == Ok::<DownloadPhase, DownloadError>(spec_next_phase(phase)),
        !succeeded ==> r == Err::<DownloadPhase, DownloadError>(spec_phase_error(phase)),
{
    if succeeded {
        Ok(
            match phase {
                DownloadPhase::Fetch => DownloadPhase::EnsureDir,
                DownloadPhase::EnsureDir => DownloadPhase::RemoveStale,
                DownloadPhase::RemoveStale => DownloadPhase::WriteArchive,
                DownloadPhase::WriteArchive => DownloadPhase::Extract,
                DownloadPhase::Extract => DownloadPhase::Done,
                DownloadPhase::Done => DownloadPhase::Done,
            },
        )
    } else {
        Err(
            match phase {
                DownloadPhase::Fetch => DownloadError::FetchFailed,
                DownloadPhase::EnsureDir => DownloadError::CacheDirUnavailable,
                DownloadPhase::RemoveStale => DownloadError::StaleArtifactRemovalFailed,
                DownloadPhase::WriteArchive => DownloadError::ArtifactAlreadyExists,
                DownloadPhase::Extract => DownloadError::ExtractionFailed,
                DownloadPhase::Done => DownloadError::ExtractionFailed,
            },
        )
    }
}

/// The pipeline's order protects the cache: the archive is written only
/// from the phase that has already removed a stale archive, and it is
/// unpacked only from the phase that has already written it.
pub proof fn lemma_phase_order(p: DownloadPhase)
    ensures
        spec_next_phase(p) == DownloadPhase::WriteArchive ==> p == DownloadPhase::RemoveStale,
        spec_next_phase(p) == DownloadPhase::Extract ==> p == DownloadPhase::WriteArchive,
        spec_next_phase(p) == DownloadPhase::RemoveStale ==> p == DownloadPhase::EnsureDir,
{
}

} // verus!
