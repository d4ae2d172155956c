//! The failures that a launch or a termination can end in.

use vstd::prelude::*;

verus! {

/// `reqwest::Error`, carried through as the cause of a failed request.
/// Nothing inside it is visible to the proofs.
#[verifier::external_type_specification]
#[verifier::external_body]
pub struct ExRequestError(reqwest::Error);

#[derive(Debug)]
pub enum ChromeError {
    /// The driver did not report ready before the deadline.
    Timeout,
    /// A status request failed for a reason other than a refused connection.
    Request(reqwest::Error),
    /// The driver process could not be started.
    SpawnFailed,
    /// The status endpoint answered with a body that is not a health response.
    MalformedHealthResponse,
    /// The driver process could not be killed on request.
    KillFailed,
}

impl ChromeError {
    /// The text that describes each failure.
    pub open spec fn text(self) -> Seq<char> {
        match self {
            ChromeError::Timeout => "timeout reached"@,
            ChromeError::Request(_) => "request error"@,
            ChromeError::SpawnFailed => "spawn failed"@,
            ChromeError::MalformedHealthResponse => "malformed health response"@,
            ChromeError::KillFailed => "kill failed"@,
        }
    }

    /// A short description of the failure, for display.
    pub fn message(&self) -> (s: String)
        ensures
            s@ == self.text(),
    {
        match self {
            ChromeError::Timeout => "timeout reached".to_owned(),
            ChromeError::Request(_) => "request error".to_owned(),
            ChromeError::SpawnFailed => "spawn failed".to_owned(),
            ChromeError::MalformedHealthResponse => "malformed health response".to_owned(),
            ChromeError::KillFailed => "kill failed".to_owned(),
        }
    }
}

} // verus!
