//! The lifecycle of the download daemon: probe it, start it where it is
//! installed but not running, check that it answers, and stop it on shutdown
//! only where it was started here.

use vstd::prelude::*;
use vstd::string::*;

verus! {

/// How long a freshly started daemon is given before it is probed again, in
/// seconds.
pub const SETTLE_SECS: u64 = 2;

/// Where the supervisor stands.
#[derive(PartialEq, Eq, Structural, Clone, Copy, Debug)]
pub enum DaemonPhase {
    Probing,
    CheckingInstall,
    PreparingDir,
    Spawning,
    Verifying,
    /// The daemon answers; `owned` where this supervisor started it.
    Running { owned: bool },
    /// The daemon cannot be had; downloads are off, search still works.
    Unavailable,
}

/// The outcome of the last action, reported by the driver.
pub enum DaemonEvent {
    ProbeSucceeded,
    ProbeFailed,
    /// Whether the daemon's binary can be run.
    InstallChecked(bool),
    /// The download directory, resolved and created.
    DirReady(String),
    /// The download directory could not be created.
    DirFailed(String),
    Spawned,
    /// Starting the process failed; `not_found` where the binary was not
    /// there.
    SpawnFailed { not_found: bool, message: String },
}

/// What the driver does next.
pub enum DaemonAction {
    /// Send the version query to the daemon's endpoint.
    Probe,
    /// Check that the daemon's binary can be run at all.
    CheckInstalled,
    /// Resolve the download directory and create it where it is missing.
    PrepareDownloadDir,
    /// Start the daemon with these arguments, its output sent nowhere.
    Spawn(Vec<String>),
    /// Wait `SETTLE_SECS`, then probe again.
    SettleThenProbe,
    /// The daemon is up.
    Ready,
    /// Kill the process just started, then give up with this message.
    AbandonChild(String),
    /// Give up with this message.
    GiveUp(String),
    /// The event does not fit the phase; nothing to do.
    Idle,
}

/// The message shown where the daemon is not installed.
pub open spec fn install_hint() -> Seq<char> {
    "aria2c not found. Please install aria2: brew install aria2 (macOS) or apt install aria2 (Ubuntu)"@
}

/// The message shown where a started daemon does not answer.
pub open spec fn not_responding() -> Seq<char> {
    "Failed to start aria2c RPC server - process started but not responding"@
}

/// The arguments the daemon is started with, downloading into `dir`.
pub open spec fn daemon_args_spec(dir: Seq<char>) -> Seq<Seq<char>> {
    seq![
        "--enable-rpc"@,
        "--rpc-listen-all=true"@,
        "--rpc-allow-origin-all=true"@,
        "--rpc-listen-port=6800"@,
        "--continue=true"@,
        "--max-connection-per-server=16"@,
        "--max-concurrent-downloads=16"@,
        "--split=16"@,
        "--min-split-size=1M"@,
        "--daemon=false"@,
        "--dir"@,
        dir,
        "--auto-file-renaming=true"@,
        "--allow-overwrite=false"@,
    ]
}

/// The arguments the daemon is started with, downloading into `dir`: RPC on
/// the fixed port, no daemonizing (so the process can be managed), renaming
/// on name clashes and never overwriting.
pub fn daemon_args(dir: &str) -> (r: Vec<String>)
    ensures
        r@.len() == daemon_args_spec(dir@).len(),
        forall|i: int| 0 <= i < r@.len() ==> (#[trigger] r@[i])@ == daemon_args_spec(dir@)[i],
{
    let r = vec![
        String::from_str("--enable-rpc"),
        String::from_str("--rpc-listen-all=true"),
        String::from_str("--rpc-allow-origin-all=true"),
        String::from_str("--rpc-listen-port=6800"),
        String::from_str("--continue=true"),
        String::from_str("--max-connection-per-server=16"),
        String::from_str("--max-concurrent-downloads=16"),
        String::from_str("--split=16"),
        String::from_str("--min-split-size=1M"),
        String::from_str("--daemon=false"),
        String::from_str("--dir"),
        String::from_str(dir),
        String::from_str("--auto-file-renaming=true"),
        String::from_str("--allow-overwrite=false"),
    ];
    assert forall|i: int| 0 <= i < r@.len() implies (#[trigger] r@[i])@ == daemon_args_spec(
        dir@,
    )[i] by {}
    r
}

/// Whether the supervisor, in phase `before` on `event`, moves to `after`
/// and asks for `r`.
pub open spec fn stepped(
    before: DaemonPhase,
    event: DaemonEvent,
    after: DaemonPhase,
    r: DaemonAction,
) -> bool {
    match (before, event) {
        (DaemonPhase::Probing, DaemonEvent::ProbeSucceeded) => after == DaemonPhase::Running {
            owned: false,
        } && r is Ready,
        (DaemonPhase::Probing, DaemonEvent::ProbeFailed) => after == DaemonPhase::CheckingInstall
            && r is CheckInstalled,
        (DaemonPhase::CheckingInstall, DaemonEvent::InstallChecked(installed)) => if installed {
            after == DaemonPhase::PreparingDir && r is PrepareDownloadDir
        } else {
            after == DaemonPhase::Unavailable && (r matches DaemonAction::GiveUp(m) && m@
                == install_hint())
        },
        (DaemonPhase::PreparingDir, DaemonEvent::DirReady(dir)) => after == DaemonPhase::Spawning
            && (r matches DaemonAction::Spawn(args) && args@.len() == daemon_args_spec(dir@).len()
            && forall|i: int|
            0 <= i < args@.len() ==> (#[trigger] args@[i])@ == daemon_args_spec(dir@)[i]),
        (DaemonPhase::PreparingDir, DaemonEvent::DirFailed(e)) => after == DaemonPhase::Unavailable
            && (r matches DaemonAction::GiveUp(m) && m@ == e@),
        (DaemonPhase::Spawning, DaemonEvent::Spawned) => after == DaemonPhase::Verifying
            && r is SettleThenProbe,
        (DaemonPhase::Spawning, DaemonEvent::SpawnFailed { not_found, message }) => after
            == DaemonPhase::Unavailable && (r matches DaemonAction::GiveUp(m) && m@ == if not_found {
            install_hint()
        } else {
            "Failed to start aria2c: "@ + message@
        }),
        (DaemonPhase::Verifying, DaemonEvent::ProbeSucceeded) => after == DaemonPhase::Running {
            owned: true,
        } && r is Ready,
        (DaemonPhase::Verifying, DaemonEvent::ProbeFailed) => after == DaemonPhase::Unavailable
            && (r matches DaemonAction::AbandonChild(m) && m@ == not_responding()),
        _ => after == before && r is Idle,
    }
}

/// The supervisor of the download daemon.
pub struct Supervisor {
    pub phase: DaemonPhase,
}

impl Supervisor {
    /// A supervisor about to probe for a running daemon.
    pub fn new() -> (r: (Supervisor, DaemonAction))
        ensures
            r.0.phase == DaemonPhase::Probing,
            r.1 is Probe,
    {
        (Supervisor { phase: DaemonPhase::Probing }, DaemonAction::Probe)
    }

    /// Advances on the outcome of the last action:
    /// - a daemon that answers the first probe is used as it is, not owned;
    /// - else, one that is not installed is given up with the install hint;
    /// - else the download directory is prepared and the daemon started;
    ///   a start that fails is given up (with the install hint where the
    ///   binary was missing);
    /// - a started daemon that answers the second probe is owned; one that
    ///   does not is killed and given up.
    /// An event that does not fit the phase changes nothing.
    pub fn step(&mut self, event: DaemonEvent) -> (r: DaemonAction)
        ensures
            stepped(old(self).phase, event, final(self).phase, r),
    {
        match (self.phase, event) {
            (DaemonPhase::Probing, DaemonEvent::ProbeSucceeded) => {
                self.phase = DaemonPhase::Running { owned: false };
                DaemonAction::Ready
            },
            (DaemonPhase::Probing, DaemonEvent::ProbeFailed) => {
                self.phase = DaemonPhase::CheckingInstall;
                DaemonAction::CheckInstalled
            },
            (DaemonPhase::CheckingInstall, DaemonEvent::InstallChecked(installed)) => {
                if installed {
                    self.phase = DaemonPhase::PreparingDir;
                    DaemonAction::PrepareDownloadDir
                } else {
                    self.phase = DaemonPhase::Unavailable;
                    DaemonAction::GiveUp(
                        String::from_str(
                            "aria2c not found. Please install aria2: brew install aria2 (macOS) or apt install aria2 (Ubuntu)",
                        ),
                    )
                }
            },
            (DaemonPhase::PreparingDir, DaemonEvent::DirReady(dir)) => {
                self.phase = DaemonPhase::Spawning;
                DaemonAction::Spawn(daemon_args(dir.as_str()))
            },
            (DaemonPhase::PreparingDir, DaemonEvent::DirFailed(e)) => {
                self.phase = DaemonPhase::Unavailable;
                DaemonAction::GiveUp(e)
            },
            (DaemonPhase::Spawning, DaemonEvent::Spawned) => {
                self.phase = DaemonPhase::Verifying;
                DaemonAction::SettleThenProbe
            },
            (DaemonPhase::Spawning, DaemonEvent::SpawnFailed { not_found, message }) => {
                self.phase = DaemonPhase::Unavailable;
                if not_found {
                    DaemonAction::GiveUp(
                        String::from_str(
                            "aria2c not found. Please install aria2: brew install aria2 (macOS) or apt install aria2 (Ubuntu)",
                        ),
                    )
                } else {
                    let mut m = String::from_str("Failed to start aria2c: ");
                    m.append(message.as_str());
                    DaemonAction::GiveUp(m)
                }
            },
            (DaemonPhase::Verifying, DaemonEvent::ProbeSucceeded) => {
                self.phase = DaemonPhase::Running { owned: true };
                DaemonAction::Ready
            },
            (DaemonPhase::Verifying, DaemonEvent::ProbeFailed) => {
                self.phase = DaemonPhase::Unavailable;
                DaemonAction::AbandonChild(
                    String::from_str(
                        "Failed to start aria2c RPC server - process started but not responding",
                    ),
                )
            },
            _ => DaemonAction::Idle,
        }
    }

    /// Whether shutdown must kill the daemon and wait for it: only where this
    /// supervisor started it.
    pub fn must_stop_on_shutdown(&self) -> (r: bool)
        ensures
            r == (self.phase == DaemonPhase::Running { owned: true }),
    {
        match self.phase {
            DaemonPhase::Running { owned } => owned,
            _ => false,
        }
    }

    /// Whether the daemon is up, started here or not.
    pub fn is_running(&self) -> (r: bool)
        ensures
            r == (self.phase is Running),
    {
        match self.phase {
            DaemonPhase::Running { .. } => true,
            _ => false,
        }
    }
}

/// Once the daemon is given up nothing more happens: whatever is reported,
/// the supervisor starts no process, probes nothing and stays unavailable.
pub proof fn lemma_unavailable_is_final(event: DaemonEvent, after: DaemonPhase, r: DaemonAction)
    requires
        stepped(DaemonPhase::Unavailable, event, after, r),
    ensures
        after == DaemonPhase::Unavailable,
        r is Idle,
{
}

/// A daemon found not installed is never started: the supervisor gives up
/// with the install hint.
pub proof fn lemma_not_installed_gives_up(after: DaemonPhase, r: DaemonAction)
    requires
        stepped(DaemonPhase::CheckingInstall, DaemonEvent::InstallChecked(false), after, r),
    ensures
        after == DaemonPhase::Unavailable,
        r matches DaemonAction::GiveUp(m) && m@ == install_hint(),
{
}

} // verus!
