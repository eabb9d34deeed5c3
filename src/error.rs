//! Errors that end supervision before any watchdog starts, or a single run.

use vstd::prelude::*;
use vstd::string::to_string_from_display_ensures;

verus! {

#[verifier::external_type_specification]
#[verifier::external_body]
pub struct ExIoError(std::io::Error);

#[derive(Debug)]
pub enum XmrError {
    IoError(std::io::Error),
    /// The target could not be found, or the environment lacks what is needed.
    EnvError(String),
    /// The target ran and failed.
    ExecutionError(String),
    /// The target could not be made executable.
    PermissionError(String),
}

impl From<std::io::Error> for XmrError {
    fn from(error: std::io::Error) -> XmrError {
        XmrError::IoError(error)
    }
}

impl vstd::std_specs::convert::FromSpecImpl<std::io::Error> for XmrError {
    open spec fn obeys_from_spec() -> bool {
        true
    }

    open spec fn from_spec(v: std::io::Error) -> XmrError {
        XmrError::IoError(v)
    }
}

/// `prefix` followed by `detail`, as a fresh `String`.
pub fn prefixed(prefix: &str, detail: &str) -> (r: String)
    ensures
        r@ == prefix@ + detail@,
{
    let mut r = String::from_str(prefix);
    r.append(detail);
    r
}

impl XmrError {
    /// The text shown to the operator for this error.
    pub fn message(&self) -> (r: String)
        ensures
            match self {
                XmrError::IoError(e) => exists|d: String|
                    to_string_from_display_ensures(e, d) && r@ == "IO error: "@ + d@,
                XmrError::EnvError(s) => r@ == "Environment error: "@ + s@,
                XmrError::ExecutionError(s) => r@ == "Execution error: "@ + s@,
                XmrError::PermissionError(s) => r@ == "Permission error: "@ + s@,
            },
    {
        match self {
            XmrError::IoError(e) => {
                let d = e.to_string();
                prefixed("IO error: ", d.as_str())
            },
            XmrError::EnvError(s) => prefixed("Environment error: ", s.as_str()),
            XmrError::ExecutionError(s) => prefixed("Execution error: ", s.as_str()),
            XmrError::PermissionError(s) => prefixed("Permission error: ", s.as_str()),
        }
    }
}

} // verus!
