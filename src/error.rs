use vstd::prelude::*;

verus! {

/// Failures that the engine reports to its caller.
#[derive(Clone, Copy, Debug, PartialEq, Eq, Structural)]
pub enum ContractError {
    /// No game is stored under the requested id.
    NotFound,
    /// The invitee's identifier is not well formed.
    InvalidAddress,
    /// A move was attempted while the game is not in progress.
    GameEndedOrUnaccepted,
    /// The caller is neither of the game's two participants.
    NotAParticipant,
    /// A row or column lies outside 0..=2.
    OutOfRange,
    /// The game counter cannot be advanced any further.
    CountOverflow,
}

} // verus!
