//! What one status request came to, and what the launch does about it.

use vstd::prelude::*;
use crate::error::ChromeError;
use crate::health::Health;

verus! {

/// The result of one request to the status endpoint.
#[derive(Debug)]
pub enum Probe {
    /// Nothing accepted the connection: the driver is not listening yet.
    Refused,
    /// The request failed in any other way.
    Failed(reqwest::Error),
    /// A response came whose body is not a health response.
    Malformed,
    /// A health response came.
    Answered(Health),
}

/// What a probe means for the launch.
#[derive(Debug)]
pub enum Verdict {
    Ready,
    Retry,
    Fail(ChromeError),
}

impl Probe {
    /// A probe is unsuccessful when the driver is not listening or says that
    /// it is not ready: the two cases that are worth another try.
    pub open spec fn unsuccessful(self) -> bool {
        match self {
            Probe::Refused => true,
            Probe::Answered(h) => !h.ready(),
            _ => false,
        }
    }

    /// How a failed request is read, given whether the HTTP client says that
    /// it failed while connecting.
    pub open spec fn of_failure(connect: bool, cause: reqwest::Error) -> Probe {
        if connect {
            Probe::Refused
        } else {
            Probe::Failed(cause)
        }
    }

    /// How a response is read, given its body as far as it could be parsed.
    pub open spec fn of_body(parsed: Option<Health>) -> Probe {
        match parsed {
            Some(health) => Probe::Answered(health),
            None => Probe::Malformed,
        }
    }

    /// Reads a failed request: a connect failure is a refusal, anything else
    /// is kept as the cause.
    pub fn classify(connect: bool, cause: reqwest::Error) -> (p: Probe)
        ensures
            p == Probe::of_failure(connect, cause),
    {
        if connect {
            Probe::Refused
        } else {
            Probe::Failed(cause)
        }
    }

    /// Reads an error of the HTTP client: a refusal where the client says
    /// that it failed while connecting, else a failure that keeps the cause.
    pub fn from_error(cause: reqwest::Error) -> (p: Probe)
        ensures
            p == Probe::of_failure(connect_failure(cause), cause),
    {
        let connect = is_connect(&cause);
        Probe::classify(connect, cause)
    }

    /// Reads a response whose body was received in full: `parsed` is the
    /// health response in it, or `None` where the body is not one.
    pub fn from_body(parsed: Option<Health>) -> (p: Probe)
        ensures
            p == Probe::of_body(parsed),
    {
        match parsed {
            Some(health) => Probe::Answered(health),
            None => Probe::Malformed,
        }
    }
}

/// Whether the HTTP client counts the error as a failure to connect: what
/// `reqwest::Error::is_connect` answers for it.
pub uninterp spec fn connect_failure(cause: reqwest::Error) -> bool;

/// `reqwest::Error::is_connect`, which looks through the error's chain of
/// sources for a connect error of the client. The answer depends on the
/// error alone; nothing more is claimed of it than its name.
#[verifier::external_body]
fn is_connect(cause: &reqwest::Error) -> (b: bool)
    ensures
        b == connect_failure(*cause),
{
    cause.is_connect()
}

/// The rule of the polling loop. `elapsed` is the time since the driver was
/// started and `timeout` the time allowed, both in nanoseconds.
pub open spec fn verdict_of(probe: Probe, elapsed: u128, timeout: u128) -> Verdict {
    match probe {
        Probe::Failed(cause) => Verdict::Fail(ChromeError::Request(cause)),
        Probe::Malformed => Verdict::Fail(ChromeError::MalformedHealthResponse),
        Probe::Answered(h) if h.ready() => Verdict::Ready,
        _ => if elapsed < timeout {
            Verdict::Retry
        } else {
            Verdict::Fail(ChromeError::Timeout)
        },
    }
}

/// Decides what follows one probe: the driver is ready, the probe is to be
/// repeated after a pause, or the launch has failed.
pub fn judge(probe: Probe, elapsed: u128, timeout: u128) -> (v: Verdict)
    ensures
        v == verdict_of(probe, elapsed, timeout),
{
    match probe {
        Probe::Failed(cause) => Verdict::Fail(ChromeError::Request(cause)),
        Probe::Malformed => Verdict::Fail(ChromeError::MalformedHealthResponse),
        Probe::Answered(h) => {
            if h.is_ready() {
                Verdict::Ready
            } else if elapsed < timeout {
                Verdict::Retry
            } else {
                Verdict::Fail(ChromeError::Timeout)
            }
        },
        Probe::Refused => {
            if elapsed < timeout {
                Verdict::Retry
            } else {
                Verdict::Fail(ChromeError::Timeout)
            }
        },
    }
}

} // verus!
