//! Process supervision for the installed Tor binary. The binary has no
//! structured channel to report readiness, so its human-readable log is
//! the only reliable signal: a line containing the fixed bootstrap
//! marker means the startup sequence has finished. The decisions — what
//! counts as a ready line, what a finished output stream means, when a
//! kill can succeed — are verified here; spawning the process and
//! draining its stream are the embedding program's concern.

use vstd::prelude::*;

verus! {

use crate::DOWNLOAD_DIRECTORY_TOR;
use crate::text::{contains_seq, join_path, spec_join, str_contains};

/// Message printed on the Tor console when bootstrapping completes.
pub const TOR_BOOTSTRAPPED_LOG: &'static str = "Bootstrapped 100% (done): Done";

/// Supervision failure.
#[derive(Clone, Copy, PartialEq, Eq, Structural, Debug)]
pub enum SupervisorError {
    /// The binary is missing or could not be started.
    SpawnFailed,
    /// The platform reported no identifier for the spawned process.
    NoProcessId,
    /// The output stream ended before the bootstrap marker appeared.
    ProcessExitedEarly,
    /// No live process identifier is recorded.
    NoActiveProcess,
}

/// A line that signals completed bootstrapping: it contains the marker
/// exactly.
pub open spec fn spec_ready_line(line: Seq<char>) -> bool {
    contains_seq(line, TOR_BOOTSTRAPPED_LOG@)
}

/// Some line of the captured output signals completed bootstrapping.
pub open spec fn spec_any_ready(lines: Seq<String>) -> bool {
    exists|i: int| 0 <= i < lines.len() && spec_ready_line(#[trigger] lines[i]@)
}

/// Decides whether one log line signals completed bootstrapping.
pub fn is_ready_line(line: &str) -> (r: bool)
    ensures
        r == spec_ready_line(line@),
{
    str_contains(line, TOR_BOOTSTRAPPED_LOG)
}

/// Finds the first line of a captured output prefix that signals
/// completed bootstrapping, if any.
pub fn scan_for_ready(lines: &Vec<String>) -> (r: Option<usize>)
    ensures
        r matches Some(i) ==> i < lines@.len() && spec_ready_line(lines@[i as int]@) && forall|
            j: int,
        | 0 <= j < i ==> !spec_ready_line(#[trigger] lines@[j]@),
        r is None ==> !spec_any_ready(lines@),
{
    let mut i: usize = 0;
    while i < lines.len()
        invariant
            0 <= i <= lines@.len(),
            forall|j: int| 0 <= j < i ==> !spec_ready_line(#[trigger] lines@[j]@),
        decreases lines@.len() - i,
    {
        if is_ready_line(lines[i].as_str()) {
            return Some(i);
        }
        i = i + 1;
    }
    None
}

/// The caller-visible outcome of supervising a process whose whole
/// output was the given lines: the recorded identifier once some line
/// signalled readiness, and `ProcessExitedEarly` when the stream ended
/// without one.
pub fn run_outcome(lines: &Vec<String>, pid: u32) -> (r: Result<u32, SupervisorError>)
    ensures
        spec_any_ready(lines@) ==> r == Ok::<u32, SupervisorError>(pid),
        !spec_any_ready(lines@) ==> r == Err::<u32, SupervisorError>(
            SupervisorError::ProcessExitedEarly,
        ),
{
    match scan_for_ready(lines) {
        Some(_) => Ok(pid),
        None => Err(SupervisorError::ProcessExitedEarly),
    }
}

/// Relies on nix::sys::signal::kill: delivers the forceful termination
/// signal to the process with the given identifier. Whether delivery
/// succeeds depends on the state of the system's process table, so
/// nothing is promised of the outcome.
#[verifier::external_body]
fn send_sigkill(pid: u32) -> Result<(), i32> {
    match nix::sys::signal::kill(
        nix::unistd::Pid::from_raw(pid as i32),
        Some(nix::sys::signal::Signal::SIGKILL),
    ) {
        Ok(()) => Ok(()),
        Err(e) => Err(e as i32),
    }
}

/// A handle to one supervised Tor installation: the recorded process
/// identifier (absent before the first run and after teardown), the
/// installation root, and the resolved version. Only one live process
/// is recorded per handle.
pub struct Tor {
    pid: Option<u32>,
    path: String,
    version: String,
}

impl Tor {
    /// The recorded process identifier.
    pub closed spec fn spec_pid(&self) -> Option<u32> {
        self.pid
    }

    /// The installation root the binary is launched from.
    pub closed spec fn spec_path(&self) -> Seq<char> {
        self.path@
    }

    /// The resolved release version of the installation.
    pub closed spec fn spec_version(&self) -> Seq<char> {
        self.version@
    }

    /// A fresh handle over an installation root and resolved version;
    /// no process is recorded yet.
    pub fn new(path: String, version: String) -> (t: Tor)
        ensures
            t.spec_pid() is None,
            t.spec_path() == path@,
            t.spec_version() == version@,
    {
        Tor { pid: None, path, version }
    }

    /// The recorded process identifier, if a run has populated one.
    pub fn pid(&self) -> (r: Option<u32>)
        ensures
            r == self.spec_pid(),
    {
        self.pid
    }

    /// The resolved release version of the installation.
    pub fn version(&self) -> (r: &String)
        ensures
            r@ == self.spec_version(),
    {
        &self.version
    }

    /// The directory of the installation that holds the binary.
    pub fn tor_bin_dir_path(&self) -> (r: String)
        ensures
            r@ == spec_join(self.spec_path(), DOWNLOAD_DIRECTORY_TOR@),
    {
        join_path(self.path.as_str(), DOWNLOAD_DIRECTORY_TOR)
    }

    /// The path of the binary itself, inside the binary directory.
    pub fn tor_binary_path(&self) -> (r: String)
        ensures
            r@ == spec_join(
                spec_join(self.spec_path(), DOWNLOAD_DIRECTORY_TOR@),
                DOWNLOAD_DIRECTORY_TOR@,
            ),
    {
        let dir = self.tor_bin_dir_path();
        join_path(dir.as_str(), DOWNLOAD_DIRECTORY_TOR)
    }

    /// Records the identifier of a process the embedding program has
    /// just spawned; the handle then owns that identifier.
    pub fn record_spawn(&mut self, pid: u32)
        ensures
            final(self).spec_pid() == Some(pid),
            final(self).spec_path() == old(self).spec_path(),
            final(self).spec_version() == old(self).spec_version(),
    {
        self.pid = Some(pid);
    }

    /// Sends the forceful termination signal to the recorded process.
    /// Fails with `NoActiveProcess` when no identifier is recorded, or
    /// when the recorded identifier no longer names a process the
    /// signal could be delivered to.
    pub fn kill(&self) -> (r: Result<(), SupervisorError>)
        ensures
            self.spec_pid() is None ==> r == Err::<(), SupervisorError>(
                SupervisorError::NoActiveProcess,
            ),
            r is Ok ==> self.spec_pid() is Some,
            r matches Err(e) ==> e == SupervisorError::NoActiveProcess,
    {
        match self.pid {
            None => Err(SupervisorError::NoActiveProcess),
            Some(p) => match send_sigkill(p) {
                Ok(_) => Ok(()),
                Err(_) => Err(SupervisorError::NoActiveProcess),
            },
        }
    }

    /// Best-effort termination for the end of the handle's owning
    /// scope: a kill is attempted when a process is recorded, any
    /// failure of it is swallowed so that cleanup never masks the
    /// primary outcome, and the identifier is cleared.
    pub fn teardown(&mut self)
        ensures
            final(self).spec_pid() is None,
            final(self).spec_path() == old(self).spec_path(),
            final(self).spec_version() == old(self).spec_version(),
    {
        match self.pid {
            Some(p) => {
                let _ = send_sigkill(p);
            },
            None => {},
        }
        self.pid = None;
    }
}

} // verus!
