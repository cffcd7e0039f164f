//! Creating a proposal under a DAO.

use crate::address::Address;
use crate::errors::VotingError;
use crate::state::{Dao, DaoView, Proposal, ProposalView};
use vstd::prelude::*;

verus! {

/// The records that `init_proposal` works on.
#[derive(Debug)]
pub struct InitProposalContext {
    /// Who signed the request; becomes the proposal's authority.
    pub creator: Address,
    /// The DAO under which the proposal is created.
    pub dao_account: Dao,
    /// The proposal record to fill.
    pub proposal: Proposal,
}

/// The bump seeds of the addresses that `init_proposal` derives.
#[derive(Clone, Copy, Debug)]
pub struct InitProposalContextBumps {
    pub proposal: u8,
}

/// A proposal as it is when just created: no vote counted yet.
pub open spec fn new_proposal(creator: Seq<u8>, metadata: Seq<char>, bump: u8) -> ProposalView {
    ProposalView { authority: creator, metadata, yes_vote_count: 0, no_vote_count: 0, bump }
}

/// The DAO after one more proposal was created under it.
pub open spec fn counted(dao: DaoView) -> DaoView
    recommends
        dao.proposal_count < u64::MAX,
{
    DaoView { proposal_count: (dao.proposal_count + 1) as u64, ..dao }
}

impl InitProposalContext {
    /// Counts the new proposal in the DAO and fills the proposal record: the
    /// creator is its authority, it carries `metadata`, and both tallies
    /// start at 0.
    ///
    /// The DAO's counter must have room for one more proposal.
    pub fn init(&mut self, bumps: &InitProposalContextBumps, metadata: String) -> (result: Result<
        (),
        VotingError,
    >)
        requires
            old(self).dao_account.proposal_count < u64::MAX,
        ensures
            result is Ok,
            final(self).creator == old(self).creator,
            final(self).dao_account@ == counted(old(self).dao_account@),
            final(self).dao_account.proposal_count == old(self).dao_account.proposal_count + 1,
            final(self).proposal@ == new_proposal(old(self).creator@, metadata@, bumps.proposal),
    {
        self.dao_account.proposal_count += 1;
        self.proposal = Proposal {
            authority: self.creator,
            metadata,
            yes_vote_count: 0,
            no_vote_count: 0,
            bump: bumps.proposal,
        };
        Ok(())
    }
}

} // verus!
