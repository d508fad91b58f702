//! The errors that a shard reports.
use vstd::prelude::*;

verus! {

/// Why a shard could not warm up or activate. Cleanup never fails.
#[derive(Clone, Copy, Debug, PartialEq, Eq, Structural)]
pub enum ShardError {
    /// A resource could not be acquired during warmup.
    WarmupFailure,
    /// A required variable is not in scope.
    MissingVariable,
    /// A variable or an object is not of the required type.
    TypeMismatch,
    /// Activation could not do its work, for one because the shared object it
    /// needs has no payload.
    ActivationFailure,
}

impl ShardError {
    /// What to tell a person about this error.
    pub open spec fn spec_message(self) -> Seq<char> {
        match self {
            ShardError::WarmupFailure => "Failed to acquire a resource during warmup"@,
            ShardError::MissingVariable => "A required variable is not in scope"@,
            ShardError::TypeMismatch => "A variable does not have the required type"@,
            ShardError::ActivationFailure => "The shared object is not available"@,
        }
    }

    /// What to tell a person about this error.
    pub fn message(&self) -> (text: &'static str)
        ensures
            text@ == self.spec_message(),
    {
        match self {
            ShardError::WarmupFailure => "Failed to acquire a resource during warmup",
            ShardError::MissingVariable => "A required variable is not in scope",
            ShardError::TypeMismatch => "A variable does not have the required type",
            ShardError::ActivationFailure => "The shared object is not available",
        }
    }
}

} // verus!
