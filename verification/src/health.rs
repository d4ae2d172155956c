//! The payload of the driver's status endpoint: `{ "value": { "ready": <bool> } }`,
//! where `ready` may be absent.

use vstd::prelude::*;

verus! {

#[derive(Debug, Clone, Copy, PartialEq, Eq)]
pub struct Value {
    pub ready: Option<bool>,
}

#[derive(Debug, Clone, Copy, PartialEq, Eq)]
pub struct Health {
    pub value: Value,
}

impl Health {
    /// The driver is ready exactly when `ready` is present and true.
    pub open spec fn ready(self) -> bool {
        self.value.ready == Some(true)
    }

    /// Whether the driver reports ready; an absent field counts as not ready.
    pub fn is_ready(&self) -> (r: bool)
        ensures
            r == self.ready(),
    {
        match self.value.ready {
            Some(b) => b,
            None => false,
        }
    }
}

} // verus!
