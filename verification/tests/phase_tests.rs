use tor_bundle::downloader::{advance_phase, DownloadError, DownloadPhase};

#[test]
fn successful_phases_commit_in_pipeline_order() {
    assert_eq!(advance_phase(DownloadPhase::Fetch, true), Ok(DownloadPhase::EnsureDir));
    assert_eq!(advance_phase(DownloadPhase::EnsureDir, true), Ok(DownloadPhase::RemoveStale));
    assert_eq!(advance_phase(DownloadPhase::RemoveStale, true), Ok(DownloadPhase::WriteArchive));
    assert_eq!(advance_phase(DownloadPhase::WriteArchive, true), Ok(DownloadPhase::Extract));
    assert_eq!(advance_phase(DownloadPhase::Extract, true), Ok(DownloadPhase::Done));
}

#[test]
fn each_failed_phase_surfaces_its_own_error() {
    assert_eq!(advance_phase(DownloadPhase::Fetch, false), Err(DownloadError::FetchFailed));
    assert_eq!(
        advance_phase(DownloadPhase::EnsureDir, false),
        Err(DownloadError::CacheDirUnavailable)
    );
    assert_eq!(
        advance_phase(DownloadPhase::RemoveStale, false),
        Err(DownloadError::StaleArtifactRemovalFailed)
    );
    assert_eq!(
        advance_phase(DownloadPhase::WriteArchive, false),
        Err(DownloadError::ArtifactAlreadyExists)
    );
    assert_eq!(
        advance_phase(DownloadPhase::Extract, false),
        Err(DownloadError::ExtractionFailed)
    );
}
