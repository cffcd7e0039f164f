//! The records that the ledger holds, and their mathematical models.

use crate::address::{zero_bytes, Address};
use vstd::prelude::*;

verus! {

/// A governed organisation.
#[derive(Debug, PartialEq, Eq)]
pub struct Dao {
    /// Who created the DAO and controls it.
    pub authority: Address,
    /// A label for display.
    pub name: String,
    /// How many proposals were created under this DAO; also the index from
    /// which the next proposal's address is derived.
    pub proposal_count: u64,
    /// The bump seed of the DAO's address.
    pub bump: u8,
}

/// The model of a [`Dao`].
pub struct DaoView {
    pub authority: Seq<u8>,
    pub name: Seq<char>,
    pub proposal_count: u64,
    pub bump: u8,
}

impl View for Dao {
    type V = DaoView;

    open spec fn view(&self) -> DaoView {
        DaoView {
            authority: self.authority@,
            name: self.name@,
            proposal_count: self.proposal_count,
            bump: self.bump,
        }
    }
}

impl Default for Dao {
    /// A DAO record not yet filled.
    fn default() -> (dao: Dao)
        ensures
            dao@ == (DaoView {
                authority: zero_bytes(),
                name: Seq::<char>::empty(),
                proposal_count: 0,
                bump: 0,
            }),
    {
        Dao { authority: Address::default(), name: String::new(), proposal_count: 0, bump: 0 }
    }
}

impl Clone for Dao {
    fn clone(&self) -> (copy: Dao)
        ensures
            copy@ == self@,
    {
        Dao {
            authority: self.authority,
            name: self.name.clone(),
            proposal_count: self.proposal_count,
            bump: self.bump,
        }
    }
}

/// An item put to a vote.
#[derive(Debug, PartialEq, Eq)]
pub struct Proposal {
    /// Who created the proposal. A vote is accepted only where this is the
    /// authority of the DAO presented with the proposal.
    pub authority: Address,
    /// A description of the proposal, or a link to one.
    pub metadata: String,
    /// The sum of the credits of the votes in favour.
    pub yes_vote_count: u64,
    /// The sum of the credits of the votes against.
    pub no_vote_count: u64,
    /// The bump seed of the proposal's address.
    pub bump: u8,
}

/// The model of a [`Proposal`].
pub struct ProposalView {
    pub authority: Seq<u8>,
    pub metadata: Seq<char>,
    pub yes_vote_count: u64,
    pub no_vote_count: u64,
    pub bump: u8,
}

impl View for Proposal {
    type V = ProposalView;

    open spec fn view(&self) -> ProposalView {
        ProposalView {
            authority: self.authority@,
            metadata: self.metadata@,
            yes_vote_count: self.yes_vote_count,
            no_vote_count: self.no_vote_count,
            bump: self.bump,
        }
    }
}

impl Default for Proposal {
    /// A proposal record not yet filled.
    fn default() -> (proposal: Proposal)
        ensures
            proposal@ == (ProposalView {
                authority: zero_bytes(),
                metadata: Seq::<char>::empty(),
                yes_vote_count: 0,
                no_vote_count: 0,
                bump: 0,
            }),
    {
        Proposal {
            authority: Address::default(),
            metadata: String::new(),
            yes_vote_count: 0,
            no_vote_count: 0,
            bump: 0,
        }
    }
}

impl Clone for Proposal {
    fn clone(&self) -> (copy: Proposal)
        ensures
            copy@ == self@,
    {
        Proposal {
            authority: self.authority,
            metadata: self.metadata.clone(),
            yes_vote_count: self.yes_vote_count,
            no_vote_count: self.no_vote_count,
            bump: self.bump,
        }
    }
}

/// One voter's choice on one proposal, with the weight it was counted at.
#[derive(Clone, Copy, Debug, PartialEq, Eq)]
pub struct Vote {
    /// Who voted.
    pub authority: Address,
    /// 0 for no, 1 for yes.
    pub vote_type: u8,
    /// The weight of the vote: the integer square root of the voter's balance
    /// when the vote was cast.
    pub vote_credits: u64,
    /// The bump seed of the vote's address.
    pub bump: u8,
}

/// The model of a [`Vote`].
pub struct VoteView {
    pub authority: Seq<u8>,
    pub vote_type: u8,
    pub vote_credits: u64,
    pub bump: u8,
}

impl View for Vote {
    type V = VoteView;

    open spec fn view(&self) -> VoteView {
        VoteView {
            authority: self.authority@,
            vote_type: self.vote_type,
            vote_credits: self.vote_credits,
            bump: self.bump,
        }
    }
}

impl Default for Vote {
    /// A vote record not yet filled.
    fn default() -> (vote: Vote)
        ensures
            vote@ == (VoteView { authority: zero_bytes(), vote_type: 0, vote_credits: 0, bump: 0 }),
    {
        Vote { authority: Address::default(), vote_type: 0, vote_credits: 0, bump: 0 }
    }
}

/// What a vote reads of the voter's token holdings.
#[derive(Clone, Copy, Debug, PartialEq, Eq)]
pub struct TokenAccount {
    /// Who owns the tokens.
    pub owner: Address,
    /// How many tokens the account holds.
    pub amount: u64,
}

/// The model of a [`TokenAccount`].
pub struct TokenAccountView {
    pub owner: Seq<u8>,
    pub amount: u64,
}

impl View for TokenAccount {
    type V = TokenAccountView;

    open spec fn view(&self) -> TokenAccountView {
        TokenAccountView { owner: self.owner@, amount: self.amount }
    }
}

/// A record of any of the three kinds.
#[derive(Debug, PartialEq, Eq)]
pub enum Account {
    Dao(Dao),
    Proposal(Proposal),
    Vote(Vote),
}

/// The model of an [`Account`].
pub enum AccountView {
    Dao(DaoView),
    Proposal(ProposalView),
    Vote(VoteView),
}

impl View for Account {
    type V = AccountView;

    open spec fn view(&self) -> AccountView {
        match self {
            Account::Dao(dao) => AccountView::Dao(dao@),
            Account::Proposal(proposal) => AccountView::Proposal(proposal@),
            Account::Vote(vote) => AccountView::Vote(vote@),
        }
    }
}

impl Clone for Account {
    fn clone(&self) -> (copy: Account)
        ensures
            copy@ == self@,
    {
        match self {
            Account::Dao(dao) => Account::Dao(dao.clone()),
            Account::Proposal(proposal) => Account::Proposal(proposal.clone()),
            Account::Vote(vote) => Account::Vote(*vote),
        }
    }
}

} // verus!
