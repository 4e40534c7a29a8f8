use tor_bundle::version::{resolve, select_max_version, version_key, ResolutionError};
use tor_bundle::VersionSelection;

fn listing(entries: &[&str]) -> Vec<String> {
    entries.iter().map(|e| (*e).to_owned()).collect()
}

#[test]
fn pinned_version_is_returned_unchanged() {
    let no_entries: Vec<String> = Vec::new();
    let selection = VersionSelection::Version("2.7.18".to_owned());
    let resolved = resolve(&selection, &no_entries).unwrap();
    assert_eq!(resolved, "2.7.18");
}

#[test]
fn stable_takes_the_maximum_release_and_latest_the_maximum_entry() {
    let entries = listing(&["14.0.1/", "14.0.4/", "14.5.0-alpha/", "../"]);
    let stable = resolve(&VersionSelection::Stable, &entries).unwrap();
    assert_eq!(stable, "14.0.4");
    let latest = resolve(&VersionSelection::Latest, &entries).unwrap();
    assert_eq!(latest, "14.5.0-alpha");
}

#[test]
fn stable_over_only_prereleases_finds_no_version() {
    let entries = listing(&["14.5.0-alpha/", "15.0.0-beta/", "15.0.0-rc1/"]);
    let r = resolve(&VersionSelection::Stable, &entries);
    assert_eq!(r, Err(ResolutionError::NoVersionsFound));
}

#[test]
fn empty_listing_finds_no_version() {
    let entries: Vec<String> = Vec::new();
    assert_eq!(resolve(&VersionSelection::Latest, &entries), Err(ResolutionError::NoVersionsFound));
    assert_eq!(resolve(&VersionSelection::Stable, &entries), Err(ResolutionError::NoVersionsFound));
}

#[test]
fn non_folder_entries_and_parent_marker_are_ignored() {
    let entries = listing(&["../", "README", "1.2.3"]);
    assert_eq!(select_max_version(&entries, false), Err(ResolutionError::NoVersionsFound));
}

#[test]
fn unparsable_names_sort_to_the_bottom_but_can_win_alone() {
    let entries = listing(&["garbage/", "1.0.0/"]);
    assert_eq!(select_max_version(&entries, false).unwrap(), "1.0.0");
    let only = listing(&["garbage/"]);
    assert_eq!(select_max_version(&only, false).unwrap(), "garbage");
}

#[test]
fn first_entry_wins_among_equal_keys() {
    let entries = listing(&["3.0.0-rc1/", "3.0.0-rc2/"]);
    assert_eq!(select_max_version(&entries, false).unwrap(), "3.0.0-rc1");
}

#[test]
fn version_key_reads_the_numeric_triple() {
    assert_eq!(version_key("14.0.4"), (14, 0, 4));
    assert_eq!(version_key("14.5.0-alpha"), (14, 5, 0));
    assert_eq!(version_key("0.0.1"), (0, 0, 1));
    assert_eq!(version_key(""), (0, 0, 0));
    assert_eq!(version_key(".."), (0, 0, 0));
    assert_eq!(version_key("garbage"), (0, 0, 0));
    assert_eq!(version_key("14.5"), (0, 0, 0));
    assert_eq!(version_key("14.5."), (0, 0, 0));
    assert_eq!(version_key("99999999999999999999.0.0"), (u64::MAX, 0, 0));
}
