use tor_bundle::tor::{
    is_ready_line, run_outcome, scan_for_ready, SupervisorError, Tor, TOR_BOOTSTRAPPED_LOG,
};

fn lines(raw: &[&str]) -> Vec<String> {
    raw.iter().map(|l| (*l).to_owned()).collect()
}

#[test]
fn ready_line_matches_the_exact_marker_substring() {
    assert!(is_ready_line(TOR_BOOTSTRAPPED_LOG));
    assert!(is_ready_line("Oct 11 12:00:00.000 [notice] Bootstrapped 100% (done): Done"));
    assert!(!is_ready_line("Bootstrapped 99% (circuit_create): Establishing a Tor circuit"));
    assert!(!is_ready_line("Bootstrapped 100% (done)"));
    assert!(!is_ready_line(""));
}

#[test]
fn scan_finds_the_first_ready_line() {
    let output = lines(&[
        "Bootstrapped 5% (conn): Connecting to a relay",
        "Bootstrapped 100% (done): Done",
        "Bootstrapped 100% (done): Done",
    ]);
    assert_eq!(scan_for_ready(&output), Some(1));
    let silent = lines(&["starting", "stopping"]);
    assert_eq!(scan_for_ready(&silent), None);
}

#[test]
fn run_without_marker_fails_as_exited_early() {
    let output = lines(&["[warn] something went wrong", "exiting"]);
    assert_eq!(run_outcome(&output, 4242), Err(SupervisorError::ProcessExitedEarly));
    let empty: Vec<String> = Vec::new();
    assert_eq!(run_outcome(&empty, 4242), Err(SupervisorError::ProcessExitedEarly));
}

#[test]
fn run_with_marker_returns_the_recorded_pid() {
    let output = lines(&[
        "Bootstrapped 0% (starting): Starting",
        "[notice] Bootstrapped 100% (done): Done",
    ]);
    assert_eq!(run_outcome(&output, 31337), Ok(31337));
    let mut tor = Tor::new("/tmp/root".to_owned(), "14.0.4".to_owned());
    tor.record_spawn(31337);
    assert_eq!(tor.pid(), Some(31337));
}

#[test]
fn kill_before_any_run_reports_no_active_process() {
    let tor = Tor::new("/tmp/root".to_owned(), "14.0.4".to_owned());
    assert_eq!(tor.kill(), Err(SupervisorError::NoActiveProcess));
}

#[test]
fn teardown_clears_the_handle_and_never_fails() {
    let mut tor = Tor::new("/tmp/root".to_owned(), "14.0.4".to_owned());
    tor.teardown();
    assert_eq!(tor.pid(), None);
    tor.teardown();
    assert_eq!(tor.pid(), None);
    assert_eq!(tor.kill(), Err(SupervisorError::NoActiveProcess));
}

#[test]
fn handle_exposes_version_and_layout() {
    let tor = Tor::new("/home/user/.cache/RustTorProject".to_owned(), "14.0.4".to_owned());
    assert_eq!(tor.version(), "14.0.4");
    assert_eq!(tor.tor_bin_dir_path(), "/home/user/.cache/RustTorProject/tor");
    assert_eq!(tor.tor_binary_path(), "/home/user/.cache/RustTorProject/tor/tor");
    assert_eq!(tor.pid(), None);
}
