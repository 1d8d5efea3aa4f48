//! Error surface of the client binding.
//!
//! The external interface reports every call's outcome as a status code; any
//! status other than success is surfaced to the caller unchanged, wrapped in
//! [`RLBotError`].

use vstd::prelude::*;

verus! {

/// A status code reported by the external core interface.
#[derive(Clone, Copy, Debug, PartialEq, Eq, Structural)]
pub enum RLBotCoreStatus {
    Success,
    BufferOverfilled,
    MessageLargerThanMax,
    InvalidNumPlayers,
    InvalidBotSkill,
    InvalidHumanIndex,
    InvalidName,
    InvalidTeam,
    InvalidTeamColorID,
    InvalidCustomColorID,
    InvalidGameValues,
    InvalidThrottle,
    InvalidSteer,
    InvalidPitch,
    InvalidYaw,
    InvalidRoll,
    InvalidPlayerIndex,
    InvalidQuickChatPreset,
    InvalidRenderType,
}

/// An error code from the external core interface.
#[derive(Clone, Copy, Debug, PartialEq, Eq, Structural)]
pub struct RLBotError {
    pub status: RLBotCoreStatus,
}

/// Turns a raw status into a result: success is `Ok`, anything else is
/// handed back as an [`RLBotError`] carrying that status.
pub fn core_result(status: RLBotCoreStatus) -> (r: Result<(), RLBotError>)
    ensures
        status == RLBotCoreStatus::Success <==> r is Ok,
        r matches Err(e) ==> e.status == status,
{
    match status {
        RLBotCoreStatus::Success => Ok(()),
        _ => Err(RLBotError { status }),
    }
}

} // verus!
