//! Caller authorization.
//!
//! A caller claims, by the path it asks for, to be a module. The transport
//! says which process is calling, and the module runtime says which process
//! runs the module. The caller is entitled to act as the module only where
//! the two are the same process.

use vstd::prelude::*;

verus! {

/// What the module runtime answered when asked for the process that runs a
/// module.
#[derive(Clone, Copy, Debug, PartialEq, Eq, Structural)]
pub enum ProcessLookup {
    /// The runtime knows no module of that name.
    Unknown,
    /// The runtime has this process on record for the module.
    Running(i32),
    /// The runtime could not be asked.
    Failed,
}

/// Why a caller was not let through.
#[derive(Clone, Copy, Debug, PartialEq, Eq, Structural)]
pub enum AuthError {
    /// There is no module of the claimed name.
    NotFound,
    /// The module is run by another process than the one that calls.
    Forbidden,
    /// The runtime gave no answer. The caller is turned down: what cannot
    /// be checked is not allowed.
    Internal,
}

/// Whether the process `caller_process_id` may act as the module that
/// `lookup` was made for.
pub open spec fn authorized(lookup: ProcessLookup, caller_process_id: i32) -> Result<(), AuthError> {
    match lookup {
        ProcessLookup::Unknown => Err(AuthError::NotFound),
        ProcessLookup::Running(recorded) => if recorded == caller_process_id {
            Ok(())
        } else {
            Err(AuthError::Forbidden)
        },
        ProcessLookup::Failed => Err(AuthError::Internal),
    }
}

/// Decides whether the calling process may act as the module it claims to
/// be, given what the runtime has on record for that module.
pub fn authorize(lookup: ProcessLookup, caller_process_id: i32) -> (r: Result<(), AuthError>)
    ensures
        r == authorized(lookup, caller_process_id),
{
    match lookup {
        ProcessLookup::Unknown => Err(AuthError::NotFound),
        ProcessLookup::Running(recorded) => {
            if recorded == caller_process_id {
                Ok(())
            } else {
                Err(AuthError::Forbidden)
            }
        },
        ProcessLookup::Failed => Err(AuthError::Internal),
    }
}

/// A caller is let through only if the runtime has the calling process on
/// record for the module.
pub proof fn lemma_authorized_only_recorded_process(lookup: ProcessLookup, caller_process_id: i32)
    ensures
        authorized(lookup, caller_process_id) is Ok <==> lookup == ProcessLookup::Running(
            caller_process_id,
        ),
{
}

} // verus!
