//! Errors a bring-up attempt can report. Every failure either rejects the
//! inputs before any hardware is touched, or halts the sequence at the step
//! that failed; no partially initialized handles are ever handed out.

use vstd::prelude::*;

verus! {

/// Why a bring-up attempt was rejected or halted.
#[derive(Clone, Copy, PartialEq, Eq, Debug)]
pub enum BringupError {
    /// The network name was empty; a name is required.
    EmptySsid,
    /// No pre-shared key was supplied; joining open networks is unsupported.
    OpenNetworkUnsupported,
    /// Neither an IPv4 nor an IPv6 assignment was supplied.
    NoAddressing,
    /// The singleton slot for the radio driver state was already claimed.
    RadioSlotClaimed,
    /// The singleton slots for the stack and its connection table were
    /// already claimed.
    StackSlotsClaimed,
    /// The spawn facility refused a background service activity.
    SpawnRejected,
    /// The join request for the named network was rejected.
    JoinFailed,
}

impl BringupError {
    /// A short, fixed description of the error.
    pub fn describe(&self) -> (r: &'static str)
        ensures
            r@.len() > 0,
    {
        let r = match self {
            BringupError::EmptySsid => "network name is empty",
            BringupError::OpenNetworkUnsupported => "open networks are not supported",
            BringupError::NoAddressing => "no addressing configuration supplied",
            BringupError::RadioSlotClaimed => "radio driver state already claimed",
            BringupError::StackSlotsClaimed => "stack resources already claimed",
            BringupError::SpawnRejected => "background activity was not accepted",
            BringupError::JoinFailed => "join request was rejected",
        };
        proof {
            reveal_strlit("network name is empty");
            reveal_strlit("open networks are not supported");
            reveal_strlit("no addressing configuration supplied");
            reveal_strlit("radio driver state already claimed");
            reveal_strlit("stack resources already claimed");
            reveal_strlit("background activity was not accepted");
            reveal_strlit("join request was rejected");
        }
        r
    }
}

} // verus!
