use quadratic_voting::address::Address;
use quadratic_voting::derivation::{find_dao_address, find_proposal_address, find_vote_address};
use quadratic_voting::errors::{Rejection, VotingError};
use quadratic_voting::ledger::Ledger;
use quadratic_voting::program::{
    cast_vote, cast_vote_with, init_dao, init_dao_with, init_proposal, init_proposal_with,
};
use quadratic_voting::state::{Account, Dao, Proposal, TokenAccount, Vote};

fn address(fill: u8) -> Address {
    Address::new([fill; 32])
}

fn program() -> Address {
    address(200)
}

fn tokens(owner: Address, amount: u64) -> TokenAccount {
    TokenAccount { owner, amount }
}

/// A ledger with the DAO "T" of `authority` and its proposal "P0"; returns
/// the ledger and the addresses of the DAO and the proposal.
fn ledger_with_proposal(authority: Address) -> (Ledger, Address, Address) {
    let mut ledger = Ledger::new();
    let dao = find_dao_address(&program(), &authority).unwrap().0;
    assert_eq!(init_dao(&mut ledger, &program(), &authority, &dao, "T".to_string()), Ok(()));
    let proposal = find_proposal_address(&program(), &dao, 0).unwrap().0;
    assert_eq!(
        init_proposal(&mut ledger, &program(), &authority, &dao, &proposal, "P0".to_string()),
        Ok(())
    );
    (ledger, dao, proposal)
}

fn tallies(ledger: &Ledger, proposal: &Address) -> (u64, u64) {
    let found = ledger.proposal(proposal).unwrap();
    (found.yes_vote_count, found.no_vote_count)
}

#[test]
fn end_to_end_scenario() {
    let creator = address(1);
    let voter_a = address(2);
    let voter_b = address(3);
    let mut ledger = Ledger::new();

    let (dao, dao_bump) = find_dao_address(&program(), &creator).unwrap();
    assert_eq!(init_dao(&mut ledger, &program(), &creator, &dao, "T".to_string()), Ok(()));
    assert_eq!(
        ledger.dao(&dao),
        Some(Dao { authority: creator, name: "T".to_string(), proposal_count: 0, bump: dao_bump })
    );

    let (proposal, proposal_bump) = find_proposal_address(&program(), &dao, 0).unwrap();
    assert_eq!(
        init_proposal(&mut ledger, &program(), &creator, &dao, &proposal, "P0".to_string()),
        Ok(())
    );
    assert_eq!(ledger.dao(&dao).unwrap().proposal_count, 1);
    assert_eq!(
        ledger.proposal(&proposal),
        Some(Proposal {
            authority: creator,
            metadata: "P0".to_string(),
            yes_vote_count: 0,
            no_vote_count: 0,
            bump: proposal_bump,
        })
    );

    let (vote_a, vote_a_bump) = find_vote_address(&program(), &voter_a, &proposal).unwrap();
    assert_eq!(
        cast_vote(&mut ledger, &program(), &voter_a, &dao, &proposal, &vote_a, &tokens(voter_a, 9), 1),
        Ok(())
    );
    assert_eq!(tallies(&ledger, &proposal), (3, 0));
    assert_eq!(
        ledger.vote(&vote_a),
        Some(Vote { authority: voter_a, vote_type: 1, vote_credits: 3, bump: vote_a_bump })
    );

    let (vote_b, vote_b_bump) = find_vote_address(&program(), &voter_b, &proposal).unwrap();
    assert_eq!(
        cast_vote(&mut ledger, &program(), &voter_b, &dao, &proposal, &vote_b, &tokens(voter_b, 16), 0),
        Ok(())
    );
    assert_eq!(tallies(&ledger, &proposal), (3, 4));
    assert_eq!(
        ledger.vote(&vote_b),
        Some(Vote { authority: voter_b, vote_type: 0, vote_credits: 4, bump: vote_b_bump })
    );

    assert_eq!(
        cast_vote(&mut ledger, &program(), &voter_a, &dao, &proposal, &vote_a, &tokens(voter_a, 9), 1),
        Err(Rejection::AddressOccupied)
    );
    assert_eq!(
        cast_vote(&mut ledger, &program(), &voter_a, &dao, &proposal, &vote_a, &tokens(voter_a, 100), 0),
        Err(Rejection::AddressOccupied)
    );
    assert_eq!(tallies(&ledger, &proposal), (3, 4));
    assert_eq!(
        ledger.vote(&vote_a),
        Some(Vote { authority: voter_a, vote_type: 1, vote_credits: 3, bump: vote_a_bump })
    );
}

#[test]
fn a_new_ledger_holds_nothing() {
    let ledger = Ledger::new();
    assert!(!ledger.contains(&address(1)));
    assert_eq!(ledger.get(&address(1)), None);
    assert_eq!(ledger.dao(&address(1)), None);
    assert_eq!(ledger.proposal(&address(1)), None);
    assert_eq!(ledger.vote(&address(1)), None);
}

#[test]
fn ledger_creates_once_and_updates_what_is_there() {
    let mut ledger = Ledger::new();
    let vote = Vote { authority: address(2), vote_type: 1, vote_credits: 3, bump: 9 };
    let other = Vote { authority: address(3), vote_type: 0, vote_credits: 4, bump: 8 };
    assert_eq!(ledger.update(&address(1), Account::Vote(vote)), Err(Rejection::RecordAbsent));
    assert!(!ledger.contains(&address(1)));
    assert_eq!(ledger.create(&address(1), Account::Vote(vote)), Ok(()));
    assert!(ledger.contains(&address(1)));
    assert_eq!(ledger.get(&address(1)), Some(&Account::Vote(vote)));
    assert_eq!(ledger.create(&address(1), Account::Vote(other)), Err(Rejection::AddressOccupied));
    assert_eq!(ledger.vote(&address(1)), Some(vote));
    assert_eq!(ledger.create(&address(5), Account::Vote(other)), Ok(()));
    assert_eq!(ledger.update(&address(1), Account::Vote(other)), Ok(()));
    assert_eq!(ledger.vote(&address(1)), Some(other));
    assert_eq!(ledger.vote(&address(5)), Some(other));
    assert_eq!(ledger.dao(&address(1)), None);
    assert_eq!(ledger.proposal(&address(1)), None);
}

#[test]
fn a_second_dao_of_one_authority_is_refused() {
    let creator = address(1);
    let mut ledger = Ledger::new();
    let (dao, bump) = find_dao_address(&program(), &creator).unwrap();
    assert_eq!(init_dao(&mut ledger, &program(), &creator, &dao, "T".to_string()), Ok(()));
    assert_eq!(
        init_dao(&mut ledger, &program(), &creator, &dao, "U".to_string()),
        Err(Rejection::AddressOccupied)
    );
    assert_eq!(
        ledger.dao(&dao),
        Some(Dao { authority: creator, name: "T".to_string(), proposal_count: 0, bump })
    );
    let other = address(9);
    let other_dao = find_dao_address(&program(), &other).unwrap().0;
    assert_eq!(init_dao(&mut ledger, &program(), &other, &other_dao, "U".to_string()), Ok(()));
    assert_eq!(ledger.dao(&other_dao).unwrap().name, "U");
}

#[test]
fn init_dao_refuses_an_address_that_is_not_derived() {
    let mut ledger = Ledger::new();
    assert_eq!(
        init_dao(&mut ledger, &program(), &address(1), &address(77), "T".to_string()),
        Err(Rejection::AddressMismatch)
    );
    assert!(!ledger.contains(&address(77)));
}

#[test]
fn an_operation_without_a_derived_address_is_refused() {
    let mut ledger = Ledger::new();
    assert_eq!(
        init_dao_with(&mut ledger, None, &address(1), &address(77), "T".to_string()),
        Err(Rejection::NoDerivedAddress)
    );
    assert!(!ledger.contains(&address(77)));
    let (mut ledger, dao, proposal) = ledger_with_proposal(address(1));
    assert_eq!(
        init_proposal_with(&mut ledger, None, &address(1), &dao, &address(78), "next".to_string()),
        Err(Rejection::NoDerivedAddress)
    );
    assert_eq!(ledger.dao(&dao).unwrap().proposal_count, 1);
    assert_eq!(
        cast_vote_with(&mut ledger, None, &address(2), &dao, &proposal, &address(79), &tokens(address(2), 9), 1),
        Err(Rejection::NoDerivedAddress)
    );
    assert_eq!(tallies(&ledger, &proposal), (0, 0));
}

#[test]
fn proposal_count_after_n_proposals_is_n() {
    let creator = address(1);
    let mut ledger = Ledger::new();
    let dao = find_dao_address(&program(), &creator).unwrap().0;
    assert_eq!(init_dao(&mut ledger, &program(), &creator, &dao, "T".to_string()), Ok(()));
    let mut created: Vec<Address> = Vec::new();
    for index in 0u64..5 {
        assert_eq!(ledger.dao(&dao).unwrap().proposal_count, index);
        let proposal = find_proposal_address(&program(), &dao, index).unwrap().0;
        assert_eq!(
            init_proposal(&mut ledger, &program(), &address(10 + index as u8), &dao, &proposal, format!("P{}", index)),
            Ok(())
        );
        assert!(!created.contains(&proposal));
        created.push(proposal);
    }
    assert_eq!(ledger.dao(&dao).unwrap().proposal_count, 5);
    for (index, proposal) in created.iter().enumerate() {
        let found = ledger.proposal(proposal).unwrap();
        assert_eq!(found.metadata, format!("P{}", index));
        assert_eq!(found.authority, address(10 + index as u8));
        assert_eq!((found.yes_vote_count, found.no_vote_count), (0, 0));
    }
}

#[test]
fn init_proposal_refuses_the_address_of_another_index() {
    let (mut ledger, dao, proposal) = ledger_with_proposal(address(1));
    let stale = proposal;
    assert_eq!(
        init_proposal(&mut ledger, &program(), &address(1), &dao, &stale, "again".to_string()),
        Err(Rejection::AddressMismatch)
    );
    let ahead = find_proposal_address(&program(), &dao, 2).unwrap().0;
    assert_eq!(
        init_proposal(&mut ledger, &program(), &address(1), &dao, &ahead, "ahead".to_string()),
        Err(Rejection::AddressMismatch)
    );
    assert_eq!(ledger.dao(&dao).unwrap().proposal_count, 1);
    assert_eq!(ledger.proposal(&stale).unwrap().metadata, "P0");
    assert!(!ledger.contains(&ahead));
}

#[test]
fn init_proposal_needs_the_dao() {
    let mut ledger = Ledger::new();
    let dao = find_dao_address(&program(), &address(1)).unwrap().0;
    let proposal = find_proposal_address(&program(), &dao, 0).unwrap().0;
    assert_eq!(
        init_proposal(&mut ledger, &program(), &address(1), &dao, &proposal, "P0".to_string()),
        Err(Rejection::RecordAbsent)
    );
    assert!(!ledger.contains(&proposal));
    let (mut ledger, _, proposal) = ledger_with_proposal(address(1));
    let under = find_proposal_address(&program(), &proposal, 0).unwrap().0;
    assert_eq!(
        init_proposal(&mut ledger, &program(), &address(1), &proposal, &under, "P".to_string()),
        Err(Rejection::RecordAbsent)
    );
}

#[test]
fn init_proposal_refuses_an_occupied_address() {
    let (mut ledger, dao, _) = ledger_with_proposal(address(1));
    let (next, bump) = find_proposal_address(&program(), &dao, 1).unwrap();
    let squatter = Vote { authority: address(8), vote_type: 0, vote_credits: 0, bump: 0 };
    assert_eq!(ledger.create(&next, Account::Vote(squatter)), Ok(()));
    assert_eq!(
        init_proposal_with(&mut ledger, Some((next, bump)), &address(1), &dao, &next, "next".to_string()),
        Err(Rejection::AddressOccupied)
    );
    assert_eq!(ledger.dao(&dao).unwrap().proposal_count, 1);
    assert_eq!(ledger.vote(&next), Some(squatter));
}

#[test]
fn init_proposal_refuses_a_full_counter() {
    let mut ledger = Ledger::new();
    let dao = address(50);
    let full = Dao { authority: address(1), name: "T".to_string(), proposal_count: u64::MAX, bump: 1 };
    assert_eq!(ledger.create(&dao, Account::Dao(full.clone())), Ok(()));
    let proposal = find_proposal_address(&program(), &dao, u64::MAX).unwrap().0;
    assert_eq!(
        init_proposal(&mut ledger, &program(), &address(1), &dao, &proposal, "P".to_string()),
        Err(Rejection::CounterOverflow)
    );
    assert_eq!(ledger.dao(&dao), Some(full));
    assert!(!ledger.contains(&proposal));
}

#[test]
fn cast_vote_refuses_a_vote_type_other_than_0_and_1() {
    let (mut ledger, dao, proposal) = ledger_with_proposal(address(1));
    let voter = address(2);
    let vote = find_vote_address(&program(), &voter, &proposal).unwrap().0;
    assert_eq!(
        cast_vote(&mut ledger, &program(), &voter, &dao, &proposal, &vote, &tokens(voter, 9), 2),
        Err(Rejection::Voting(VotingError::InvalidVoteType))
    );
    assert_eq!(tallies(&ledger, &proposal), (0, 0));
    assert!(!ledger.contains(&vote));
    assert_eq!(
        cast_vote(&mut ledger, &program(), &voter, &dao, &proposal, &vote, &tokens(voter, 9), 1),
        Ok(())
    );
    assert_eq!(
        cast_vote(&mut ledger, &program(), &voter, &dao, &proposal, &vote, &tokens(voter, 9), 255),
        Err(Rejection::Voting(VotingError::InvalidVoteType))
    );
    assert_eq!(tallies(&ledger, &proposal), (3, 0));
}

#[test]
fn cast_vote_refuses_a_token_account_of_another_owner() {
    let (mut ledger, dao, proposal) = ledger_with_proposal(address(1));
    let voter = address(2);
    let vote = find_vote_address(&program(), &voter, &proposal).unwrap().0;
    assert_eq!(
        cast_vote(&mut ledger, &program(), &voter, &dao, &proposal, &vote, &tokens(address(3), 9), 1),
        Err(Rejection::Voting(VotingError::InvalidTokenAccount))
    );
    assert_eq!(
        cast_vote(&mut ledger, &program(), &voter, &dao, &proposal, &vote, &tokens(address(3), 9), 7),
        Err(Rejection::Voting(VotingError::InvalidTokenAccount))
    );
    assert_eq!(tallies(&ledger, &proposal), (0, 0));
    assert!(!ledger.contains(&vote));
}

#[test]
fn cast_vote_refuses_a_proposal_of_another_dao() {
    let (mut ledger, dao, _) = ledger_with_proposal(address(1));
    let outsider = address(6);
    let foreign = find_proposal_address(&program(), &dao, 1).unwrap().0;
    assert_eq!(
        init_proposal(&mut ledger, &program(), &outsider, &dao, &foreign, "next".to_string()),
        Ok(())
    );
    let voter = address(2);
    let vote = find_vote_address(&program(), &voter, &foreign).unwrap().0;
    assert_eq!(
        cast_vote(&mut ledger, &program(), &voter, &dao, &foreign, &vote, &tokens(voter, 9), 1),
        Err(Rejection::Voting(VotingError::InvalidProposal))
    );
    assert_eq!(
        cast_vote(&mut ledger, &program(), &voter, &dao, &foreign, &vote, &tokens(address(3), 9), 9),
        Err(Rejection::Voting(VotingError::InvalidProposal))
    );
    assert_eq!(tallies(&ledger, &foreign), (0, 0));
    assert!(!ledger.contains(&vote));
}

#[test]
fn cast_vote_needs_the_dao_and_the_proposal() {
    let (mut ledger, dao, proposal) = ledger_with_proposal(address(1));
    let voter = address(2);
    let vote = find_vote_address(&program(), &voter, &proposal).unwrap().0;
    assert_eq!(
        cast_vote(&mut ledger, &program(), &voter, &address(90), &proposal, &vote, &tokens(voter, 9), 1),
        Err(Rejection::RecordAbsent)
    );
    let nowhere = address(91);
    let vote_nowhere = find_vote_address(&program(), &voter, &nowhere).unwrap().0;
    assert_eq!(
        cast_vote(&mut ledger, &program(), &voter, &dao, &nowhere, &vote_nowhere, &tokens(voter, 9), 1),
        Err(Rejection::RecordAbsent)
    );
    assert_eq!(
        cast_vote(&mut ledger, &program(), &voter, &proposal, &dao, &vote, &tokens(voter, 9), 1),
        Err(Rejection::RecordAbsent)
    );
    assert_eq!(tallies(&ledger, &proposal), (0, 0));
}

#[test]
fn cast_vote_refuses_an_address_that_is_not_derived() {
    let (mut ledger, dao, proposal) = ledger_with_proposal(address(1));
    let voter = address(2);
    let of_another = find_vote_address(&program(), &address(3), &proposal).unwrap().0;
    assert_eq!(
        cast_vote(&mut ledger, &program(), &voter, &dao, &proposal, &of_another, &tokens(voter, 9), 1),
        Err(Rejection::AddressMismatch)
    );
    assert_eq!(tallies(&ledger, &proposal), (0, 0));
    assert!(!ledger.contains(&of_another));
}

#[test]
fn cast_vote_refuses_a_full_tally() {
    let mut ledger = Ledger::new();
    let dao = address(50);
    let proposal = address(51);
    let creator = address(1);
    assert_eq!(
        ledger.create(
            &dao,
            Account::Dao(Dao { authority: creator, name: "T".to_string(), proposal_count: 1, bump: 1 })
        ),
        Ok(())
    );
    let nearly_full = Proposal {
        authority: creator,
        metadata: "P0".to_string(),
        yes_vote_count: u64::MAX - 2,
        no_vote_count: 7,
        bump: 2,
    };
    assert_eq!(ledger.create(&proposal, Account::Proposal(nearly_full.clone())), Ok(()));
    let voter = address(2);
    let vote = find_vote_address(&program(), &voter, &proposal).unwrap().0;
    assert_eq!(
        cast_vote(&mut ledger, &program(), &voter, &dao, &proposal, &vote, &tokens(voter, 9), 1),
        Err(Rejection::CounterOverflow)
    );
    assert_eq!(ledger.proposal(&proposal), Some(nearly_full));
    assert!(!ledger.contains(&vote));
    assert_eq!(
        cast_vote(&mut ledger, &program(), &voter, &dao, &proposal, &vote, &tokens(voter, 4), 1),
        Ok(())
    );
    assert_eq!(tallies(&ledger, &proposal), (u64::MAX, 7));
}

#[test]
fn a_vote_without_tokens_is_recorded_with_no_weight() {
    let (mut ledger, dao, proposal) = ledger_with_proposal(address(1));
    let voter = address(2);
    let (vote, bump) = find_vote_address(&program(), &voter, &proposal).unwrap();
    assert_eq!(
        cast_vote(&mut ledger, &program(), &voter, &dao, &proposal, &vote, &tokens(voter, 0), 0),
        Ok(())
    );
    assert_eq!(tallies(&ledger, &proposal), (0, 0));
    assert_eq!(
        ledger.vote(&vote),
        Some(Vote { authority: voter, vote_type: 0, vote_credits: 0, bump })
    );
    assert_eq!(
        cast_vote(&mut ledger, &program(), &voter, &dao, &proposal, &vote, &tokens(voter, 100), 1),
        Err(Rejection::AddressOccupied)
    );
    assert_eq!(tallies(&ledger, &proposal), (0, 0));
}

#[test]
fn one_voter_votes_on_two_proposals() {
    let (mut ledger, dao, first) = ledger_with_proposal(address(1));
    let second = find_proposal_address(&program(), &dao, 1).unwrap().0;
    assert_eq!(
        init_proposal(&mut ledger, &program(), &address(1), &dao, &second, "next".to_string()),
        Ok(())
    );
    let voter = address(2);
    let on_first = find_vote_address(&program(), &voter, &first).unwrap().0;
    let on_second = find_vote_address(&program(), &voter, &second).unwrap().0;
    assert_eq!(
        cast_vote(&mut ledger, &program(), &voter, &dao, &first, &on_first, &tokens(voter, 100), 1),
        Ok(())
    );
    assert_eq!(
        cast_vote(&mut ledger, &program(), &voter, &dao, &second, &on_second, &tokens(voter, 10), 0),
        Ok(())
    );
    assert_eq!(tallies(&ledger, &first), (10, 0));
    assert_eq!(tallies(&ledger, &second), (0, 3));
    assert_eq!(ledger.dao(&dao).unwrap().proposal_count, 2);
}

#[test]
fn votes_of_two_voters_commute() {
    let a = address(2);
    let b = address(3);
    let (mut one, dao, proposal) = ledger_with_proposal(address(1));
    let (mut other, _, _) = ledger_with_proposal(address(1));
    let vote_a = find_vote_address(&program(), &a, &proposal).unwrap().0;
    let vote_b = find_vote_address(&program(), &b, &proposal).unwrap().0;
    assert_eq!(
        cast_vote(&mut one, &program(), &a, &dao, &proposal, &vote_a, &tokens(a, 50), 1),
        Ok(())
    );
    assert_eq!(
        cast_vote(&mut one, &program(), &b, &dao, &proposal, &vote_b, &tokens(b, 30), 1),
        Ok(())
    );
    assert_eq!(
        cast_vote(&mut other, &program(), &b, &dao, &proposal, &vote_b, &tokens(b, 30), 1),
        Ok(())
    );
    assert_eq!(
        cast_vote(&mut other, &program(), &a, &dao, &proposal, &vote_a, &tokens(a, 50), 1),
        Ok(())
    );
    assert_eq!(tallies(&one, &proposal), (12, 0));
    assert_eq!(one.proposal(&proposal), other.proposal(&proposal));
    assert_eq!(one.vote(&vote_a), other.vote(&vote_a));
    assert_eq!(one.vote(&vote_b), other.vote(&vote_b));
    assert_eq!(one.dao(&dao), other.dao(&dao));
}

#[test]
fn operations_at_the_crate_root() {
    let creator = address(1);
    let mut ledger = Ledger::new();
    let dao = find_dao_address(&program(), &creator).unwrap().0;
    assert_eq!(
        quadratic_voting::init_dao(&mut ledger, &program(), &creator, &dao, "T".to_string()),
        Ok(())
    );
    let proposal = find_proposal_address(&program(), &dao, 0).unwrap().0;
    assert_eq!(
        quadratic_voting::init_proposal(&mut ledger, &program(), &creator, &dao, &proposal, "P0".to_string()),
        Ok(())
    );
    let vote = find_vote_address(&program(), &creator, &proposal).unwrap().0;
    assert_eq!(
        quadratic_voting::cast_vote(&mut ledger, &program(), &creator, &dao, &proposal, &vote, &tokens(creator, 4), 0),
        Ok(())
    );
    assert_eq!(tallies(&ledger, &proposal), (0, 2));
}
