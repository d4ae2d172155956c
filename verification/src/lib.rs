//! Supervision of a browser-driver process: start it, poll its status
//! endpoint until it reports ready, and kill it when it is no longer needed.
//!
//! The library holds the decisions of that protocol as a verified state
//! machine. Its caller owns the operating-system process, the HTTP client and
//! the clock: it performs each [`supervisor::Action`] and reports what
//! happened as an [`supervisor::Event`].

pub mod error;
pub mod health;
pub mod laws;

pub mod probe;
pub mod supervisor;

pub use error::ChromeError;
pub use health::{Health, Value};
pub use probe::{Probe, Verdict};
pub use supervisor::{Action, Chrome, Config, Event, Phase};
