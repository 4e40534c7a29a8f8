use tor_bundle::downloader::{DownloadError, DownloadOptions, Downloader};
use tor_bundle::{Target, DEFAULT_VERSION, DOWNLOAD_DIRECTORY};

#[test]
fn build_download_url_for_default() {
    let downloader = Downloader::new().unwrap();
    let target = Target::default();
    let have = downloader.download_url();
    let want = format!(
        "https://archive.torproject.org/tor-package-archive/torbrowser/{}/tor-expert-bundle-{}-{}.tar.gz",
        DEFAULT_VERSION,
        target.render(),
        DEFAULT_VERSION
    );
    assert_eq!(want, have);
}

#[test]
fn download_url_for_macos_x86_64() {
    let downloader = Downloader::new_with_options(
        DownloadOptions::new()
            .with_download_path("/tmp/cache".to_owned())
            .with_target(Target::MacOSX8664)
            .with_version("14.0.4".to_owned()),
    )
    .unwrap();
    assert_eq!(
        downloader.download_url(),
        "https://archive.torproject.org/tor-package-archive/torbrowser/14.0.4/tor-expert-bundle-macos-x86_64-14.0.4.tar.gz"
    );
}

#[test]
fn tarball_name_and_path_follow_target_and_version() {
    let downloader = Downloader::new_with_options(
        DownloadOptions::new()
            .with_download_path("/var/cache/bundles".to_owned())
            .with_target(Target::GnuLinuxX8664)
            .with_version("13.5.9".to_owned()),
    )
    .unwrap();
    assert_eq!(downloader.tarball_name(), "tor-expert-bundle-linux-x86_64-13.5.9.tar.gz");
    assert_eq!(
        downloader.download_tarball_path(),
        "/var/cache/bundles/tor-expert-bundle-linux-x86_64-13.5.9.tar.gz"
    );
}

#[test]
fn builder_defaults_fill_unset_fields() {
    let downloader = Downloader::new().unwrap();
    assert_eq!(downloader.version(), DEFAULT_VERSION);
    assert!(matches!(downloader.target(), Target::GnuLinuxX8664));
    assert!(downloader.download_path().ends_with(&format!("/{}", DOWNLOAD_DIRECTORY)));
}

#[test]
fn builder_keeps_explicit_fields() {
    let options = DownloadOptions::new()
        .with_download_path("/explicit/root".to_owned())
        .with_version("15.0.0".to_owned());
    let downloader = options.build().unwrap();
    assert_eq!(downloader.download_path(), "/explicit/root");
    assert_eq!(downloader.version(), "15.0.0");
}

#[test]
fn download_error_variants_are_distinct() {
    let all = [
        DownloadError::FetchFailed,
        DownloadError::CacheDirUnavailable,
        DownloadError::StaleArtifactRemovalFailed,
        DownloadError::ArtifactAlreadyExists,
        DownloadError::ExtractionFailed,
    ];
    for (i, a) in all.iter().enumerate() {
        for (j, b) in all.iter().enumerate() {
            assert_eq!(i == j, a == b);
        }
    }
}
