use vstd::prelude::*;
use vstd::string::StringExecFns;

verus! {

/// The async runtime was asked for work after it was shut down.
#[derive(Debug, Clone)]
pub enum AsyncRuntimeError {
    RuntimeNotExistsAnymore,
}

impl AsyncRuntimeError {
    /// Human-readable description of the error.
    pub fn text(&self) -> String {
        let mut s = String::new();
        match self {
            AsyncRuntimeError::RuntimeNotExistsAnymore => {
                s.append("tokio runtime not exists anymore");
            },
        }
        s
    }
}

} // verus!
