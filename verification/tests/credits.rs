use quadratic_voting::credits::vote_credits;

#[test]
fn credits_of_small_balances() {
    assert_eq!(vote_credits(0), 0);
    assert_eq!(vote_credits(1), 1);
    assert_eq!(vote_credits(4), 2);
    assert_eq!(vote_credits(9), 3);
    assert_eq!(vote_credits(10), 3);
    assert_eq!(vote_credits(100), 10);
}

#[test]
fn credits_round_down_between_squares() {
    assert_eq!(vote_credits(2), 1);
    assert_eq!(vote_credits(3), 1);
    assert_eq!(vote_credits(8), 2);
    assert_eq!(vote_credits(15), 3);
    assert_eq!(vote_credits(16), 4);
    assert_eq!(vote_credits(99), 9);
    assert_eq!(vote_credits(1_000_000), 1_000);
    assert_eq!(vote_credits(999_999), 999);
}

#[test]
fn credits_of_the_largest_balances() {
    assert_eq!(vote_credits(u64::MAX), 4_294_967_295);
    assert_eq!(vote_credits(4_294_967_295 * 4_294_967_295), 4_294_967_295);
    assert_eq!(vote_credits(4_294_967_295 * 4_294_967_295 - 1), 4_294_967_294);
    assert_eq!(vote_credits(1 << 62), 1 << 31);
}

#[test]
fn credits_square_brackets_the_balance() {
    let balances: Vec<u64> = vec![0, 1, 2, 5, 17, 24, 25, 26, 12_345, 987_654_321, u64::MAX - 7];
    for balance in balances {
        let root: u128 = vote_credits(balance) as u128;
        assert!(root * root <= balance as u128);
        assert!((balance as u128) < (root + 1) * (root + 1));
    }
}
