use vstd::prelude::*;
use vstd::string::StringExecFns;

verus! {

/// The failure taxonomy of the client core.
///
/// Configuration and validation errors are fatal and never retried;
/// transport errors are the recoverable class a retry policy may wrap.
#[derive(Debug, Clone)]
pub enum ClientError {
    /// The configuration is invalid or incomplete for the target chain.
    Configuration(String),
    /// A constructed domain value failed validation.
    Validation(String),
    /// The transport failed or the remote node reported a failure.
    Transport(String),
    /// The operation is an extension point with no implementation yet.
    NotImplemented,
}

impl ClientError {
    /// A human-readable description of the failure.
    pub fn message(&self) -> (r: String)
        ensures
            r@ == self.message_spec(),
    {
        match self {
            ClientError::Configuration(m) => m.clone(),
            ClientError::Validation(m) => m.clone(),
            ClientError::Transport(m) => m.clone(),
            ClientError::NotImplemented => String::from_str("operation is not implemented"),
        }
    }

    /// The description `message` returns for each failure class.
    pub open spec fn message_spec(&self) -> Seq<char> {
        match self {
            ClientError::Configuration(m) => m@,
            ClientError::Validation(m) => m@,
            ClientError::Transport(m) => m@,
            ClientError::NotImplemented => "operation is not implemented"@,
        }
    }
}

} // verus!
