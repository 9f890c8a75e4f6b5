//! Typed failures of the orchestration layer.
use vstd::prelude::*;

verus! {

/// A failure carrying the original message verbatim.
#[derive(Clone, Debug, PartialEq, Eq)]
pub enum DeployError {
    /// Missing or invalid credential, or no handle to the network.
    Configuration(String),
    /// A submission or query rejected by the chain.
    Chain(String),
    /// An invalid artifact path or an unsupported network class.
    Resolution(String),
}

impl DeployError {
    /// The message carried by the error, whatever its kind.
    pub open spec fn message_spec(&self) -> Seq<char> {
        match self {
            DeployError::Configuration(m) => m@,
            DeployError::Chain(m) => m@,
            DeployError::Resolution(m) => m@,
        }
    }

    /// Borrows the message carried by the error.
    pub fn message(&self) -> (r: &str)
        ensures
            r@ == self.message_spec(),
    {
        match self {
            DeployError::Configuration(m) => m.as_str(),
            DeployError::Chain(m) => m.as_str(),
            DeployError::Resolution(m) => m.as_str(),
        }
    }

    /// Whether the error was reported by the chain.
    pub fn is_chain(&self) -> (r: bool)
        ensures
            r == (self is Chain),
    {
        match self {
            DeployError::Chain(_) => true,
            _ => false,
        }
    }
}

} // verus!
