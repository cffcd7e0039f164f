//! Casting a vote on a proposal.

use crate::address::Address;
use crate::credits::{floor_sqrt, vote_credits};
use crate::errors::VotingError;
use crate::state::{Dao, DaoView, Proposal, ProposalView, TokenAccount, TokenAccountView, Vote, VoteView};
use vstd::prelude::*;

verus! {

/// The records that `cast_vote` works on.
#[derive(Debug)]
pub struct CastVote {
    /// Who signed the request.
    pub voter: Address,
    /// The DAO presented with the proposal.
    pub dao_account: Dao,
    /// The proposal voted on.
    pub proposal: Proposal,
    /// The vote record to fill.
    pub vote_account: Vote,
    /// The token holdings that give the vote its weight.
    pub voter_token_account: TokenAccount,
}

/// The bump seeds of the addresses that `cast_vote` derives.
#[derive(Clone, Copy, Debug)]
pub struct CastVoteBumps {
    pub vote_account: u8,
}

/// The vote type for a vote against.
pub const VOTE_NO: u8 = 0;

/// The vote type for a vote in favour.
pub const VOTE_YES: u8 = 1;

/// A vote type is 0 (no) or 1 (yes).
pub open spec fn valid_vote_type(vote_type: u8) -> bool {
    vote_type == VOTE_NO || vote_type == VOTE_YES
}

/// The rules that a vote must meet, in the order in which they are checked:
/// the proposal belongs to the DAO presented, the token account belongs to
/// the voter, and the vote type is 0 or 1.
pub open spec fn validation(
    dao: DaoView,
    proposal: ProposalView,
    voter: Seq<u8>,
    tokens: TokenAccountView,
    vote_type: u8,
) -> Result<(), VotingError> {
    if proposal.authority != dao.authority {
        Err(VotingError::InvalidProposal)
    } else if tokens.owner != voter {
        Err(VotingError::InvalidTokenAccount)
    } else if !valid_vote_type(vote_type) {
        Err(VotingError::InvalidVoteType)
    } else {
        Ok(())
    }
}

/// The weight of a vote cast with `balance` tokens: `floor(sqrt(balance))`.
pub open spec fn credits_of(balance: u64) -> u64 {
    floor_sqrt(balance as nat) as u64
}

/// The vote record of a voter with `balance` tokens.
pub open spec fn recorded_vote(voter: Seq<u8>, vote_type: u8, balance: u64, bump: u8) -> VoteView {
    VoteView { authority: voter, vote_type, vote_credits: credits_of(balance), bump }
}

/// The tally that a vote of the given type adds to.
pub open spec fn tally_before(proposal: ProposalView, vote_type: u8) -> u64 {
    if vote_type == VOTE_YES {
        proposal.yes_vote_count
    } else {
        proposal.no_vote_count
    }
}

/// The tally of the vote's type has room for `credits` more.
pub open spec fn tally_fits(proposal: ProposalView, vote_type: u8, credits: u64) -> bool {
    tally_before(proposal, vote_type) + credits <= u64::MAX
}

/// The proposal after `credits` were added to the tally of the vote's type:
/// the yes tally for type 1, the no tally otherwise.
pub open spec fn tallied(proposal: ProposalView, vote_type: u8, credits: u64) -> ProposalView
    recommends
        tally_fits(proposal, vote_type, credits),
{
    if vote_type == VOTE_YES {
        ProposalView { yes_vote_count: (proposal.yes_vote_count + credits) as u64, ..proposal }
    } else {
        ProposalView { no_vote_count: (proposal.no_vote_count + credits) as u64, ..proposal }
    }
}

impl CastVote {
    /// Checks the rules of a vote, in order, and names the first one broken.
    pub fn validate(&self, vote_type: u8) -> (result: Result<(), VotingError>)
        ensures
            result == validation(
                self.dao_account@,
                self.proposal@,
                self.voter@,
                self.voter_token_account@,
                vote_type,
            ),
    {
        if self.proposal.authority != self.dao_account.authority {
            Err(VotingError::InvalidProposal)
        } else if self.voter_token_account.owner != self.voter {
            Err(VotingError::InvalidTokenAccount)
        } else if !(vote_type == VOTE_NO || vote_type == VOTE_YES) {
            Err(VotingError::InvalidVoteType)
        } else {
            Ok(())
        }
    }

    /// Casts the vote: checks the rules, weighs the vote at the integer
    /// square root of the voter's balance, fills the vote record and adds the
    /// weight to the proposal's tally of the vote's type.
    ///
    /// A vote that breaks a rule changes nothing. The tally must have room
    /// for the vote's weight.
    pub fn cast(&mut self, bumps: &CastVoteBumps, vote_type: u8) -> (result: Result<
        (),
        VotingError,
    >)
        requires
            validation(
                old(self).dao_account@,
                old(self).proposal@,
                old(self).voter@,
                old(self).voter_token_account@,
                vote_type,
            ) is Ok ==> tally_fits(
                old(self).proposal@,
                vote_type,
                credits_of(old(self).voter_token_account.amount),
            ),
        ensures
            result == validation(
                old(self).dao_account@,
                old(self).proposal@,
                old(self).voter@,
                old(self).voter_token_account@,
                vote_type,
            ),
            result is Err ==> *final(self) == *old(self),
            final(self).voter == old(self).voter,
            final(self).dao_account == old(self).dao_account,
            final(self).voter_token_account == old(self).voter_token_account,
            result is Ok ==> final(self).vote_account@ == recorded_vote(
                old(self).voter@,
                vote_type,
                old(self).voter_token_account.amount,
                bumps.vote_account,
            ),
            result is Ok ==> final(self).proposal@ == tallied(
                old(self).proposal@,
                vote_type,
                credits_of(old(self).voter_token_account.amount),
            ),
            final(self).proposal.yes_vote_count >= old(self).proposal.yes_vote_count,
            final(self).proposal.no_vote_count >= old(self).proposal.no_vote_count,
    {
        match self.validate(vote_type) {
            Err(error) => {
                return Err(error);
            },
            Ok(()) => {},
        }
        let voting_credits: u64 = vote_credits(self.voter_token_account.amount);
        self.vote_account = Vote {
            authority: self.voter,
            vote_type,
            vote_credits: voting_credits,
            bump: bumps.vote_account,
        };
        if vote_type == VOTE_YES {
            self.proposal.yes_vote_count += voting_credits;
        } else {
            self.proposal.no_vote_count += voting_credits;
        }
        Ok(())
    }
}

} // verus!
