use anchor_lang::prelude::Pubkey;
use quadratic_voting::address::Address;
use quadratic_voting::derivation::{
    find_dao_address, find_proposal_address, find_vote_address, DAO_TAG, PROPOSAL_TAG, VOTE_TAG,
};

fn address(fill: u8) -> Address {
    Address::new([fill; 32])
}

#[test]
fn tags_spell_their_names() {
    assert_eq!(&DAO_TAG[..], b"dao");
    assert_eq!(&PROPOSAL_TAG[..], b"proposal");
    assert_eq!(&VOTE_TAG[..], b"vote");
}

#[test]
fn address_equality_is_by_bytes() {
    let mut bytes: [u8; 32] = [7; 32];
    assert_eq!(Address::new(bytes), address(7));
    bytes[31] = 8;
    assert_ne!(Address::new(bytes), address(7));
    assert_eq!(address(7).to_vec(), vec![7u8; 32]);
    assert_eq!(Address::default(), address(0));
}

#[test]
fn dao_address_is_what_the_seeds_derive() {
    let program = address(1);
    let authority = address(2);
    let (expected, bump) = Pubkey::find_program_address(
        &[b"dao", &[2u8; 32]],
        &Pubkey::new_from_array([1u8; 32]),
    );
    let derived = find_dao_address(&program, &authority);
    assert_eq!(derived, Some((Address::new(expected.to_bytes()), bump)));
    assert_ne!(derived.unwrap().0, program);
    assert_ne!(derived.unwrap().0, authority);
}

#[test]
fn proposal_address_is_what_the_seeds_derive() {
    let program = address(1);
    let dao = address(3);
    let index: u64 = 0x0102_0304_0506_0708;
    let (expected, bump) = Pubkey::find_program_address(
        &[b"proposal", &[3u8; 32], &[8, 7, 6, 5, 4, 3, 2, 1]],
        &Pubkey::new_from_array([1u8; 32]),
    );
    let derived = find_proposal_address(&program, &dao, index);
    assert_eq!(derived, Some((Address::new(expected.to_bytes()), bump)));
    assert_ne!(derived.unwrap().0, dao);
}

#[test]
fn vote_address_is_what_the_seeds_derive() {
    let program = address(1);
    let voter = address(4);
    let proposal = address(5);
    let (expected, bump) = Pubkey::find_program_address(
        &[b"vote", &[4u8; 32], &[5u8; 32]],
        &Pubkey::new_from_array([1u8; 32]),
    );
    let derived = find_vote_address(&program, &voter, &proposal);
    assert_eq!(derived, Some((Address::new(expected.to_bytes()), bump)));
    assert_ne!(derived.unwrap().0, voter);
    assert_ne!(derived.unwrap().0, proposal);
}

#[test]
fn derivation_is_repeatable() {
    let program = address(9);
    assert_eq!(find_dao_address(&program, &address(2)), find_dao_address(&program, &address(2)));
    assert_eq!(
        find_proposal_address(&program, &address(3), 5),
        find_proposal_address(&program, &address(3), 5)
    );
    assert_eq!(
        find_vote_address(&program, &address(4), &address(5)),
        find_vote_address(&program, &address(4), &address(5))
    );
}

#[test]
fn different_seeds_give_different_addresses() {
    let program = address(9);
    let first = find_proposal_address(&program, &address(3), 0).unwrap().0;
    let second = find_proposal_address(&program, &address(3), 1).unwrap().0;
    let elsewhere = find_proposal_address(&program, &address(4), 0).unwrap().0;
    assert_ne!(first, second);
    assert_ne!(first, elsewhere);
    let a_on_p = find_vote_address(&program, &address(4), &address(5)).unwrap().0;
    let b_on_p = find_vote_address(&program, &address(6), &address(5)).unwrap().0;
    let a_on_q = find_vote_address(&program, &address(4), &address(7)).unwrap().0;
    assert_ne!(a_on_p, b_on_p);
    assert_ne!(a_on_p, a_on_q);
    let other_program = find_dao_address(&address(8), &address(2)).unwrap().0;
    assert_ne!(find_dao_address(&program, &address(2)).unwrap().0, other_program);
}
