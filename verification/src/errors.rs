//! Error taxonomy of the supervision core.

use vstd::prelude::*;

verus! {

/// Why a supervisor operation failed.
///
/// - `ValidationError`: an instance configuration was rejected (bad token,
///   or no valid instance at all was left after registration).
/// - `NotFound`: an operation named an instance that is not registered.
/// - `SpawnError`: the operating system failed to create the process.
/// - `ProtocolError`: a discovery response could not be understood.
/// - `NotificationError`: a notification sink could not be reached.
#[derive(Clone, Copy, Debug, PartialEq, Eq, Structural)]
pub enum SupervisorError {
    ValidationError,
    NotFound,
    SpawnError,
    ProtocolError,
    NotificationError,
}

impl SupervisorError {
    /// A short human-readable description, for the embedding binary's logs.
    pub fn message(&self) -> (m: &'static str)
        ensures
            (*self is ValidationError) ==> m@ == "invalid instance configuration"@,
            (*self is NotFound) ==> m@ == "instance not found"@,
            (*self is SpawnError) ==> m@ == "failed to spawn process"@,
            (*self is ProtocolError) ==> m@ == "malformed discovery response"@,
            (*self is NotificationError) ==> m@ == "notification sink unreachable"@,
    {
        match self {
            SupervisorError::ValidationError => "invalid instance configuration",
            SupervisorError::NotFound => "instance not found",
            SupervisorError::SpawnError => "failed to spawn process",
            SupervisorError::ProtocolError => "malformed discovery response",
            SupervisorError::NotificationError => "notification sink unreachable",
        }
    }
}

} // verus!
