//! The three operations on the ledger: create a DAO, create a proposal under
//! it, cast a vote on a proposal.
//!
//! Each operation is atomic: it succeeds and commits all of its changes, or
//! fails and leaves the ledger as it was. The address of every new record is
//! given by the caller and must be the one derived from the record's seeds.

use crate::address::Address;
use crate::credits::vote_credits;
use crate::derivation::{
    dao_seeds, derived_view, find_dao_address, find_proposal_address, find_vote_address,
    program_address, proposal_seeds, vote_seeds,
};
use crate::errors::Rejection;
use crate::instructions::cast_votes::{
    credits_of, recorded_vote, tallied, tally_fits, validation, CastVote, CastVoteBumps, VOTE_YES,
};
use crate::instructions::init_dao::{new_dao, InitDao, InitDaoBumps};
use crate::instructions::init_proposal::{
    counted, new_proposal, InitProposalContext, InitProposalContextBumps,
};
use crate::ledger::{dao_at, proposal_at, Ledger, LedgerView};
use crate::state::{Account, AccountView, Dao, Proposal, TokenAccount, TokenAccountView, Vote};
use vstd::prelude::*;

verus! {

/// Whether a new record may be created at `target`: the seeds must derive an
/// address, `target` must be that address, and it must hold no record yet.
pub open spec fn placement(pre: LedgerView, derived: Option<(Seq<u8>, u8)>, target: Seq<u8>) -> Result<
    u8,
    Rejection,
> {
    match derived {
        None => Err(Rejection::NoDerivedAddress),
        Some((address, bump)) => if address != target {
            Err(Rejection::AddressMismatch)
        } else if pre.contains_key(target) {
            Err(Rejection::AddressOccupied)
        } else {
            Ok(bump)
        },
    }
}

/// `post` continues `pre`: no record is gone; a DAO's counter and a
/// proposal's tallies have not gone down, and nothing else of them has
/// changed; a vote is as it was.
pub open spec fn evolves(pre: LedgerView, post: LedgerView) -> bool {
    forall|address: Seq<u8>| #[trigger]
        pre.contains_key(address) ==> post.contains_key(address) && continues(
            pre[address],
            post[address],
        )
}

/// `after` is a later state of the record `before`.
pub open spec fn continues(before: AccountView, after: AccountView) -> bool {
    match before {
        AccountView::Dao(dao) => after matches AccountView::Dao(later) && later.authority
            == dao.authority && later.name == dao.name && later.bump == dao.bump
            && later.proposal_count >= dao.proposal_count,
        AccountView::Proposal(proposal) => after matches AccountView::Proposal(later)
            && later.authority == proposal.authority && later.metadata == proposal.metadata
            && later.bump == proposal.bump && later.yes_vote_count >= proposal.yes_vote_count
            && later.no_vote_count >= proposal.no_vote_count,
        AccountView::Vote(vote) => after == before,
    }
}

/// The outcome of `init_dao` when `derived` is what the DAO's seeds derive.
pub open spec fn init_dao_result(
    pre: LedgerView,
    derived: Option<(Seq<u8>, u8)>,
    dao_account: Seq<u8>,
) -> Result<(), Rejection> {
    match placement(pre, derived, dao_account) {
        Err(rejection) => Err(rejection),
        Ok(_) => Ok(()),
    }
}

/// The ledger after `init_dao`.
pub open spec fn init_dao_effect(
    pre: LedgerView,
    derived: Option<(Seq<u8>, u8)>,
    creator: Seq<u8>,
    dao_account: Seq<u8>,
    name: Seq<char>,
) -> LedgerView {
    match placement(pre, derived, dao_account) {
        Err(_) => pre,
        Ok(bump) => pre.insert(dao_account, AccountView::Dao(new_dao(creator, name, bump))),
    }
}

/// Creates the DAO of `creator` at `dao_account`, where `derived` is the
/// address and bump seed that the DAO's seeds derive.
pub fn init_dao_with(
    ledger: &mut Ledger,
    derived: Option<(Address, u8)>,
    creator: &Address,
    dao_account: &Address,
    name: String,
) -> (result: Result<(), Rejection>)
    ensures
        result == init_dao_result(old(ledger)@, derived_view(derived), dao_account@),
        final(ledger)@ == init_dao_effect(
            old(ledger)@,
            derived_view(derived),
            creator@,
            dao_account@,
            name@,
        ),
        evolves(old(ledger)@, final(ledger)@),
{
    let bump: u8 = match derived {
        None => {
            return Err(Rejection::NoDerivedAddress);
        },
        Some((address, bump)) => {
            if address != *dao_account {
                return Err(Rejection::AddressMismatch);
            }
            bump
        },
    };
    if ledger.contains(dao_account) {
        return Err(Rejection::AddressOccupied);
    }
    let mut accounts = InitDao { creator: *creator, dao_account: Dao::default() };
    match accounts.init(&InitDaoBumps { dao_account: bump }, name) {
        Err(error) => {
            return Err(Rejection::Voting(error));
        },
        Ok(()) => {},
    }
    ledger.create(dao_account, Account::Dao(accounts.dao_account))
}

/// Creates a DAO: a record at `dao_account` with `creator` as its authority,
/// the given name, and no proposal yet.
///
/// `dao_account` must be the address derived from the DAO tag and the
/// creator, and must hold no record: each authority has one DAO.
pub fn init_dao(
    ledger: &mut Ledger,
    program: &Address,
    creator: &Address,
    dao_account: &Address,
    name: String,
) -> (result: Result<(), Rejection>)
    ensures
        result == init_dao_result(
            old(ledger)@,
            program_address(dao_seeds(creator@), program@),
            dao_account@,
        ),
        final(ledger)@ == init_dao_effect(
            old(ledger)@,
            program_address(dao_seeds(creator@), program@),
            creator@,
            dao_account@,
            name@,
        ),
        evolves(old(ledger)@, final(ledger)@),
{
    let derived = find_dao_address(program, creator);
    init_dao_with(ledger, derived, creator, dao_account, name)
}

/// The outcome of `init_proposal` when `derived` is what the proposal's
/// seeds derive.
pub open spec fn init_proposal_result(
    pre: LedgerView,
    derived: Option<(Seq<u8>, u8)>,
    dao_account: Seq<u8>,
    proposal: Seq<u8>,
) -> Result<(), Rejection> {
    match dao_at(pre, dao_account) {
        None => Err(Rejection::RecordAbsent),
        Some(dao) => match placement(pre, derived, proposal) {
            Err(rejection) => Err(rejection),
            Ok(_) => if dao.proposal_count == u64::MAX {
                Err(Rejection::CounterOverflow)
            } else {
                Ok(())
            },
        },
    }
}

/// The ledger after `init_proposal`.
pub open spec fn init_proposal_effect(
    pre: LedgerView,
    derived: Option<(Seq<u8>, u8)>,
    creator: Seq<u8>,
    dao_account: Seq<u8>,
    proposal: Seq<u8>,
    metadata: Seq<char>,
) -> LedgerView {
    match (
        init_proposal_result(pre, derived, dao_account, proposal),
        dao_at(pre, dao_account),
        derived,
    ) {
        (Ok(_), Some(dao), Some((_, bump))) => pre.insert(
            dao_account,
            AccountView::Dao(counted(dao)),
        ).insert(proposal, AccountView::Proposal(new_proposal(creator, metadata, bump))),
        _ => pre,
    }
}

/// What the seeds of the next proposal of the DAO at `dao_account` derive:
/// they hold the DAO's counter as it stands in `pre`.
pub open spec fn next_proposal_address(pre: LedgerView, program: Seq<u8>, dao_account: Seq<u8>) -> Option<
    (Seq<u8>, u8),
> {
    match dao_at(pre, dao_account) {
        None => None,
        Some(dao) => program_address(proposal_seeds(dao_account, dao.proposal_count), program),
    }
}

/// Creates a proposal under the DAO at `dao_account`, where `derived` is the
/// address and bump seed that the proposal's seeds derive.
pub fn init_proposal_with(
    ledger: &mut Ledger,
    derived: Option<(Address, u8)>,
    creator: &Address,
    dao_account: &Address,
    proposal: &Address,
    metadata: String,
) -> (result: Result<(), Rejection>)
    ensures
        result == init_proposal_result(
            old(ledger)@,
            derived_view(derived),
            dao_account@,
            proposal@,
        ),
        final(ledger)@ == init_proposal_effect(
            old(ledger)@,
            derived_view(derived),
            creator@,
            dao_account@,
            proposal@,
            metadata@,
        ),
        evolves(old(ledger)@, final(ledger)@),
{
    let dao = match ledger.dao(dao_account) {
        None => {
            return Err(Rejection::RecordAbsent);
        },
        Some(dao) => dao,
    };
    let bump: u8 = match derived {
        None => {
            return Err(Rejection::NoDerivedAddress);
        },
        Some((address, bump)) => {
            if address != *proposal {
                return Err(Rejection::AddressMismatch);
            }
            bump
        },
    };
    if ledger.contains(proposal) {
        return Err(Rejection::AddressOccupied);
    }
    if dao.proposal_count == u64::MAX {
        return Err(Rejection::CounterOverflow);
    }
    let mut accounts = InitProposalContext {
        creator: *creator,
        dao_account: dao,
        proposal: Proposal::default(),
    };
    match accounts.init(&InitProposalContextBumps { proposal: bump }, metadata) {
        Err(error) => {
            return Err(Rejection::Voting(error));
        },
        Ok(()) => {},
    }
    let _ = ledger.update(dao_account, Account::Dao(accounts.dao_account));
    ledger.create(proposal, Account::Proposal(accounts.proposal))
}

/// Creates a proposal under the DAO at `dao_account`: counts it in the DAO
/// and creates a record at `proposal` with `creator` as its authority, the
/// given metadata and both tallies at 0.
///
/// `proposal` must be the address derived from the proposal tag, the DAO's
/// address and the DAO's counter as it stands before the call.
pub fn init_proposal(
    ledger: &mut Ledger,
    program: &Address,
    creator: &Address,
    dao_account: &Address,
    proposal: &Address,
    metadata: String,
) -> (result: Result<(), Rejection>)
    ensures
        result == init_proposal_result(
            old(ledger)@,
            next_proposal_address(old(ledger)@, program@, dao_account@),
            dao_account@,
            proposal@,
        ),
        final(ledger)@ == init_proposal_effect(
            old(ledger)@,
            next_proposal_address(old(ledger)@, program@, dao_account@),
            creator@,
            dao_account@,
            proposal@,
            metadata@,
        ),
        evolves(old(ledger)@, final(ledger)@),
{
    let derived = match ledger.dao(dao_account) {
        None => None,
        Some(dao) => find_proposal_address(program, dao_account, dao.proposal_count),
    };
    init_proposal_with(ledger, derived, creator, dao_account, proposal, metadata)
}

/// The outcome of `cast_vote` when `derived` is what the vote's seeds derive.
///
/// The DAO and the proposal must be there; then the rules of a vote are
/// checked, in their order; then the place of the vote record; last, that
/// the tally has room.
pub open spec fn cast_vote_result(
    pre: LedgerView,
    derived: Option<(Seq<u8>, u8)>,
    voter: Seq<u8>,
    dao_account: Seq<u8>,
    proposal: Seq<u8>,
    vote_account: Seq<u8>,
    tokens: TokenAccountView,
    vote_type: u8,
) -> Result<(), Rejection> {
    match (dao_at(pre, dao_account), proposal_at(pre, proposal)) {
        (Some(dao), Some(target)) => match validation(dao, target, voter, tokens, vote_type) {
            Err(error) => Err(Rejection::Voting(error)),
            Ok(_) => match placement(pre, derived, vote_account) {
                Err(rejection) => Err(rejection),
                Ok(_) => if tally_fits(target, vote_type, credits_of(tokens.amount)) {
                    Ok(())
                } else {
                    Err(Rejection::CounterOverflow)
                },
            },
        },
        _ => Err(Rejection::RecordAbsent),
    }
}

/// The ledger after `cast_vote`.
pub open spec fn cast_vote_effect(
    pre: LedgerView,
    derived: Option<(Seq<u8>, u8)>,
    voter: Seq<u8>,
    dao_account: Seq<u8>,
    proposal: Seq<u8>,
    vote_account: Seq<u8>,
    tokens: TokenAccountView,
    vote_type: u8,
) -> LedgerView {
    match (
        cast_vote_result(
            pre,
            derived,
            voter,
            dao_account,
            proposal,
            vote_account,
            tokens,
            vote_type,
        ),
        proposal_at(pre, proposal),
        derived,
    ) {
        (Ok(_), Some(target), Some((_, bump))) => pre.insert(
            proposal,
            AccountView::Proposal(tallied(target, vote_type, credits_of(tokens.amount))),
        ).insert(
            vote_account,
            AccountView::Vote(recorded_vote(voter, vote_type, tokens.amount, bump)),
        ),
        _ => pre,
    }
}

/// Casts the vote of `voter` on the proposal at `proposal`, where `derived`
/// is the address and bump seed that the vote's seeds derive.
pub fn cast_vote_with(
    ledger: &mut Ledger,
    derived: Option<(Address, u8)>,
    voter: &Address,
    dao_account: &Address,
    proposal: &Address,
    vote_account: &Address,
    voter_token_account: &TokenAccount,
    vote_type: u8,
) -> (result: Result<(), Rejection>)
    ensures
        result == cast_vote_result(
            old(ledger)@,
            derived_view(derived),
            voter@,
            dao_account@,
            proposal@,
            vote_account@,
            voter_token_account@,
            vote_type,
        ),
        final(ledger)@ == cast_vote_effect(
            old(ledger)@,
            derived_view(derived),
            voter@,
            dao_account@,
            proposal@,
            vote_account@,
            voter_token_account@,
            vote_type,
        ),
        evolves(old(ledger)@, final(ledger)@),
{
    let dao = match ledger.dao(dao_account) {
        None => {
            return Err(Rejection::RecordAbsent);
        },
        Some(dao) => dao,
    };
    let target = match ledger.proposal(proposal) {
        None => {
            return Err(Rejection::RecordAbsent);
        },
        Some(target) => target,
    };
    let mut accounts = CastVote {
        voter: *voter,
        dao_account: dao,
        proposal: target,
        vote_account: Vote::default(),
        voter_token_account: *voter_token_account,
    };
    match accounts.validate(vote_type) {
        Err(error) => {
            return Err(Rejection::Voting(error));
        },
        Ok(()) => {},
    }
    let bump: u8 = match derived {
        None => {
            return Err(Rejection::NoDerivedAddress);
        },
        Some((address, bump)) => {
            if address != *vote_account {
                return Err(Rejection::AddressMismatch);
            }
            bump
        },
    };
    if ledger.contains(vote_account) {
        return Err(Rejection::AddressOccupied);
    }
    let credits: u64 = vote_credits(voter_token_account.amount);
    let tally: u64 = if vote_type == VOTE_YES {
        accounts.proposal.yes_vote_count
    } else {
        accounts.proposal.no_vote_count
    };
    if tally > u64::MAX - credits {
        return Err(Rejection::CounterOverflow);
    }
    match accounts.cast(&CastVoteBumps { vote_account: bump }, vote_type) {
        Err(error) => {
            return Err(Rejection::Voting(error));
        },
        Ok(()) => {},
    }
    let _ = ledger.update(proposal, Account::Proposal(accounts.proposal));
    ledger.create(vote_account, Account::Vote(accounts.vote_account))
}

/// Casts a vote: creates the vote record of `voter` at `vote_account`, with
/// the integer square root of the voter's token balance as its weight, and
/// adds that weight to the proposal's yes tally for vote type 1, to its no
/// tally for vote type 0.
///
/// `vote_account` must be the address derived from the vote tag, the voter
/// and the proposal's address. A voter who has voted on a proposal finds
/// that address taken, and cannot vote on it again.
pub fn cast_vote(
    ledger: &mut Ledger,
    program: &Address,
    voter: &Address,
    dao_account: &Address,
    proposal: &Address,
    vote_account: &Address,
    voter_token_account: &TokenAccount,
    vote_type: u8,
) -> (result: Result<(), Rejection>)
    ensures
        result == cast_vote_result(
            old(ledger)@,
            program_address(vote_seeds(voter@, proposal@), program@),
            voter@,
            dao_account@,
            proposal@,
            vote_account@,
            voter_token_account@,
            vote_type,
        ),
        final(ledger)@ == cast_vote_effect(
            old(ledger)@,
            program_address(vote_seeds(voter@, proposal@), program@),
            voter@,
            dao_account@,
            proposal@,
            vote_account@,
            voter_token_account@,
            vote_type,
        ),
        evolves(old(ledger)@, final(ledger)@),
{
    let derived = find_vote_address(program, voter, proposal);
    cast_vote_with(
        ledger,
        derived,
        voter,
        dao_account,
        proposal,
        vote_account,
        voter_token_account,
        vote_type,
    )
}

} // verus!
