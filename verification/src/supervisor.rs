//! The supervisor of one driver process, as a state machine.
//!
//! The caller holds the process, the HTTP client and the clock. It asks the
//! supervisor what to do ([`Chrome::spawn`], [`Chrome::terminate`]), performs
//! the [`Action`] it is given, and reports what came of it with
//! [`Chrome::advance`], until the action is one that ends the exchange.

use vstd::prelude::*;
use vstd::string::*;
use crate::error::ChromeError;
use crate::probe::{judge, verdict_of, Probe, Verdict};

verus! {

/// Where the supervisor stands. Durations are in nanoseconds.
#[derive(Debug, Clone, Copy, PartialEq, Eq)]
pub enum Phase {
    /// No process is owned and nothing is under way.
    Idle,
    /// The caller has been asked to start the driver.
    Starting { poll: u128, timeout: u128 },
    /// The driver runs and is being probed for readiness.
    Polling { pid: u32, poll: u128, timeout: u128 },
    /// The driver runs and has reported ready.
    Running { pid: u32 },
    /// The caller has been asked to kill the driver.
    Stopping,
}

/// What the caller reports back.
#[derive(Debug)]
pub enum Event {
    /// The driver was started, with this process identifier.
    Spawned { pid: u32 },
    /// The driver could not be started.
    SpawnFailed,
    /// A status request ended, `elapsed` nanoseconds after the start.
    Probed { probe: Probe, elapsed: u128 },
    /// The kill that was asked for was tried.
    Killed { ok: bool },
}

/// What the caller is to do next.
#[derive(Debug)]
pub enum Action {
    /// Kill the process named, if any, then start the driver and report
    /// `Spawned` or `SpawnFailed`.
    Start { kill: Option<u32> },
    /// Request the status now and report `Probed`.
    Request,
    /// Sleep for this long, then request the status and report `Probed`.
    Sleep { nanos: u128 },
    /// Kill this process and report `Killed`.
    Kill { pid: u32 },
    /// The operation has succeeded.
    Done,
    /// The operation has failed with this error. The process named, if any,
    /// is to be killed first, whatever comes of the kill.
    Fail { kill: Option<u32>, error: ChromeError },
    /// The event does not belong to the phase: nothing is to be done.
    Ignore,
}

impl Phase {
    /// The live process that the supervisor answers for.
    pub open spec fn owned(self) -> Option<u32> {
        match self {
            Phase::Polling { pid, .. } => Some(pid),
            Phase::Running { pid } => Some(pid),
            _ => None,
        }
    }

    /// The live process that the supervisor answers for in this phase.
    pub fn process(&self) -> (p: Option<u32>)
        ensures
            p == self.owned(),
    {
        match self {
            Phase::Polling { pid, .. } => Some(*pid),
            Phase::Running { pid } => Some(*pid),
            _ => None,
        }
    }
}

impl Action {
    /// The process that the action tells the caller to kill.
    pub open spec fn kills(self) -> Option<u32> {
        match self {
            Action::Start { kill } => kill,
            Action::Kill { pid } => Some(pid),
            Action::Fail { kill, .. } => kill,
            _ => None,
        }
    }
}

/// A launch begins by starting the driver. A process still owned from an
/// earlier launch is killed first, so that no more than one is ever owned.
pub open spec fn begin(phase: Phase, poll: u128, timeout: u128) -> (Phase, Action) {
    (Phase::Starting { poll, timeout }, Action::Start { kill: phase.owned() })
}

/// The transition on an event.
pub open spec fn step(phase: Phase, event: Event) -> (Phase, Action) {
    match (phase, event) {
        (Phase::Starting { poll, timeout }, Event::Spawned { pid }) => (
            Phase::Polling { pid, poll, timeout },
            Action::Request,
        ),
        (Phase::Starting { .. }, Event::SpawnFailed) => (
            Phase::Idle,
            Action::Fail { kill: None, error: ChromeError::SpawnFailed },
        ),
        (Phase::Polling { pid, poll, timeout }, Event::Probed { probe, elapsed }) => match verdict_of(
            probe,
            elapsed,
            timeout,
        ) {
            Verdict::Ready => (Phase::Running { pid }, Action::Done),
            Verdict::Retry => (phase, Action::Sleep { nanos: poll }),
            Verdict::Fail(error) => (Phase::Idle, Action::Fail { kill: Some(pid), error }),
        },
        (Phase::Stopping, Event::Killed { ok }) => (
            Phase::Idle,
            if ok {
                Action::Done
            } else {
                Action::Fail { kill: None, error: ChromeError::KillFailed }
            },
        ),
        _ => (phase, Action::Ignore),
    }
}

/// Termination kills the owned process; with none owned it changes nothing.
pub open spec fn halt(phase: Phase) -> (Phase, Action) {
    match phase.owned() {
        Some(pid) => (Phase::Stopping, Action::Kill { pid }),
        None => (phase, Action::Done),
    }
}

/// What to run and where to ask for its status.
#[derive(Debug, Clone)]
pub struct Config {
    /// The driver's executable: a path or a command name.
    pub driver_path: String,
    /// The base URL of the driver's HTTP server.
    pub server_url: String,
    /// The arguments that the driver is started with.
    pub args: Vec<String>,
}

impl Default for Config {
    fn default() -> (c: Config)
        ensures
            c.driver_path@ == "chromedriver"@,
            c.server_url@ == "http://localhost:9515"@,
            c.args@ == Seq::<String>::empty(),
    {
        Config {
            driver_path: "chromedriver".to_owned(),
            server_url: "http://localhost:9515".to_owned(),
            args: Vec::new(),
        }
    }
}

impl Config {
    /// The address of the status endpoint: the server's URL, then `/status`.
    pub fn status_url(&self) -> (url: String)
        ensures
            url@ == self.server_url@ + "/status"@,
    {
        self.server_url.clone().concat("/status")
    }
}

/// The supervisor: its configuration, which never changes, and where the
/// launch stands.
#[derive(Debug)]
pub struct Chrome {
    config: Config,
    phase: Phase,
}

impl Default for Chrome {
    fn default() -> (c: Chrome)
        ensures
            c.config().driver_path@ == "chromedriver"@,
            c.config().server_url@ == "http://localhost:9515"@,
            c.config().args@ == Seq::<String>::empty(),
            c.phase() == Phase::Idle,
    {
        Chrome { config: Config::default(), phase: Phase::Idle }
    }
}

impl Chrome {
    /// The configuration that the supervisor was made with.
    pub closed spec fn config(&self) -> Config {
        self.config
    }

    /// The phase that the supervisor is in.
    pub closed spec fn phase(&self) -> Phase {
        self.phase
    }

    /// A supervisor for the given driver. Nothing is started yet.
    pub fn new(config: Config) -> (c: Chrome)
        ensures
            c.config() == config,
            c.phase() == Phase::Idle,
    {
        Chrome { config, phase: Phase::Idle }
    }

    /// The configuration that the supervisor was made with.
    pub fn settings(&self) -> (c: &Config)
        ensures
            *c == self.config(),
    {
        &self.config
    }

    /// The phase that the supervisor is in.
    pub fn current_phase(&self) -> (p: Phase)
        ensures
            p == self.phase(),
    {
        self.phase
    }

    /// The process that the supervisor owns, if any.
    pub fn handle(&self) -> (p: Option<u32>)
        ensures
            p == self.phase().owned(),
    {
        self.phase.process()
    }

    /// Begins a launch that pauses for `poll` nanoseconds after each
    /// unsuccessful probe and gives up `timeout` nanoseconds after the start.
    /// With a `poll` of zero the probes follow one another without a pause.
    pub fn spawn(&mut self, poll: u128, timeout: u128) -> (action: Action)
        ensures
            (final(self).phase(), action) == begin(old(self).phase(), poll, timeout),
            final(self).config() == old(self).config(),
    {
        let kill = self.phase.process();
        self.phase = Phase::Starting { poll, timeout };
        Action::Start { kill }
    }

    /// Takes in what came of the last action and says what to do next.
    pub fn advance(&mut self, event: Event) -> (action: Action)
        ensures
            (final(self).phase(), action) == step(old(self).phase(), event),
            final(self).config() == old(self).config(),
    {
        match (self.phase, event) {
            (Phase::Starting { poll, timeout }, Event::Spawned { pid }) => {
                self.phase = Phase::Polling { pid, poll, timeout };
                Action::Request
            },
            (Phase::Starting { .. }, Event::SpawnFailed) => {
                self.phase = Phase::Idle;
                Action::Fail { kill: None, error: ChromeError::SpawnFailed }
            },
            (Phase::Polling { pid, poll, timeout }, Event::Probed { probe, elapsed }) => {
                match judge(probe, elapsed, timeout) {
                    Verdict::Ready => {
                        self.phase = Phase::Running { pid };
                        Action::Done
                    },
                    Verdict::Retry => Action::Sleep { nanos: poll },
                    Verdict::Fail(error) => {
                        self.phase = Phase::Idle;
                        Action::Fail { kill: Some(pid), error }
                    },
                }
            },
            (Phase::Stopping, Event::Killed { ok }) => {
                self.phase = Phase::Idle;
                if ok {
                    Action::Done
                } else {
                    Action::Fail { kill: None, error: ChromeError::KillFailed }
                }
            },
            _ => Action::Ignore,
        }
    }

    /// Asks for the owned process to be killed. With no process owned, and so
    /// on every call after the first, nothing is to be done.
    pub fn terminate(&mut self) -> (action: Action)
        ensures
            (final(self).phase(), action) == halt(old(self).phase()),
            final(self).config() == old(self).config(),
    {
        match self.phase.process() {
            Some(pid) => {
                self.phase = Phase::Stopping;
                Action::Kill { pid }
            },
            None => Action::Done,
        }
    }
}

} // verus!
