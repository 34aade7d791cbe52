//! The operator's error kinds and their rendered messages.

use vstd::prelude::*;

verus! {

use vstd::string::StringExecFns;

/// Error kinds surfaced by the reconciliation logic. Each carries the
/// human-readable detail of what failed.
#[derive(Clone, Debug)]
pub enum Error {
    /// Kubernetes API call failure (assumed transient).
    KubeError(String),
    /// Configuration materialization failure.
    ConfigError(String),
    /// Spec validation failure (requires user action).
    ValidationError(String),
    /// Referenced secret or key missing.
    SecretError(String),
    /// Failure inside the finalizer-governed apply/cleanup lifecycle.
    FinalizerError(String),
}

/// The rendered message of an error: its category followed by its detail.
pub open spec fn error_message_view(e: Error) -> Seq<char> {
    match e {
        Error::KubeError(m) => "Kubernetes API error: "@ + m@,
        Error::ConfigError(m) => "Configuration error: "@ + m@,
        Error::ValidationError(m) => "Validation error: "@ + m@,
        Error::SecretError(m) => "Secret error: "@ + m@,
        Error::FinalizerError(m) => "Finalizer error: "@ + m@,
    }
}

impl Error {
    /// Renders the error as human-readable text.
    pub fn message(&self) -> (s: String)
        ensures
            s@ == error_message_view(*self),
    {
        match self {
            Error::KubeError(m) => {
                let mut s = "Kubernetes API error: ".to_owned();
                s.append(m.as_str());
                s
            },
            Error::ConfigError(m) => {
                let mut s = "Configuration error: ".to_owned();
                s.append(m.as_str());
                s
            },
            Error::ValidationError(m) => {
                let mut s = "Validation error: ".to_owned();
                s.append(m.as_str());
                s
            },
            Error::SecretError(m) => {
                let mut s = "Secret error: ".to_owned();
                s.append(m.as_str());
                s
            },
            Error::FinalizerError(m) => {
                let mut s = "Finalizer error: ".to_owned();
                s.append(m.as_str());
                s
            },
        }
    }
}

} // verus!
