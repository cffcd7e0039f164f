//! Why an operation is refused.

use vstd::prelude::*;

verus! {

/// A request that breaks one of the voting rules.
#[derive(Clone, Copy, Debug, PartialEq, Eq, Structural)]
pub enum VotingError {
    /// The token account does not belong to the voter.
    InvalidTokenAccount,
    /// The vote type is neither 0 (no) nor 1 (yes).
    InvalidVoteType,
    /// The proposal does not belong to the DAO that was presented with it.
    InvalidProposal,
}

/// The text that goes with each voting error.
pub open spec fn message_text(error: VotingError) -> Seq<char> {
    match error {
        VotingError::InvalidTokenAccount => "The token account does not belong to the voter"@,
        VotingError::InvalidVoteType => "Invalid vote type. Must be 0 or 1"@,
        VotingError::InvalidProposal => "Proposal does not belong to this DAO"@,
    }
}

impl VotingError {
    /// The message shown to the caller for this error.
    pub fn message(&self) -> (text: String)
        ensures
            text@ == message_text(*self),
    {
        match self {
            VotingError::InvalidTokenAccount => {
                "The token account does not belong to the voter".to_owned()
            },
            VotingError::InvalidVoteType => "Invalid vote type. Must be 0 or 1".to_owned(),
            VotingError::InvalidProposal => "Proposal does not belong to this DAO".to_owned(),
        }
    }
}

/// Why an operation on the ledger failed. A failed operation changes nothing.
#[derive(Clone, Copy, Debug, PartialEq, Eq, Structural)]
pub enum Rejection {
    /// A voting rule was broken.
    Voting(VotingError),
    /// A record that the operation needs is not at the address given for it.
    RecordAbsent,
    /// The address at which a record was to be created already holds one.
    AddressOccupied,
    /// The address given for a new record is not the one derived from its seeds.
    AddressMismatch,
    /// The seeds of a new record admit no derived address.
    NoDerivedAddress,
    /// A counter has reached the largest value it can hold.
    CounterOverflow,
}

} // verus!
