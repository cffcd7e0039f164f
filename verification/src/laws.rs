//! What holds of the operations whatever the requests are.
//!
//! Each law is stated over the models of the operations: the functions that
//! `init_dao`, `init_proposal` and `cast_vote` promise to follow.

use crate::derivation::{program_address, vote_seeds};
use crate::errors::{Rejection, VotingError};
use crate::credits::{floor_sqrt, is_floor_sqrt, lemma_floor_sqrt_exists};
use crate::instructions::cast_votes::{credits_of, valid_vote_type};
use crate::ledger::{dao_at, proposal_at, vote_at, LedgerView};
use crate::program::{
    cast_vote_effect, cast_vote_result, continues, evolves, init_dao_effect,
    init_proposal_effect, init_proposal_result, next_proposal_address,
};
use crate::state::TokenAccountView;
use vstd::prelude::*;

verus! {

/// A ledger continues itself.
pub proof fn law_evolves_reflexive(ledger: LedgerView)
    ensures
        evolves(ledger, ledger),
{
}

/// What continues a continuation of a ledger continues that ledger.
pub proof fn law_evolves_transitive(first: LedgerView, second: LedgerView, third: LedgerView)
    requires
        evolves(first, second),
        evolves(second, third),
    ensures
        evolves(first, third),
{
    assert forall|address: Seq<u8>| #[trigger] first.contains_key(address) implies third.contains_key(
        address,
    ) && continues(first[address], third[address]) by {
        assert(second.contains_key(address));
        assert(continues(first[address], second[address]));
        assert(continues(second[address], third[address]));
    }
}

/// Creating a DAO takes no record away and changes none.
pub proof fn law_init_dao_evolves(
    pre: LedgerView,
    derived: Option<(Seq<u8>, u8)>,
    creator: Seq<u8>,
    dao_account: Seq<u8>,
    name: Seq<char>,
)
    ensures
        evolves(pre, init_dao_effect(pre, derived, creator, dao_account, name)),
{
}

/// Creating a proposal takes no record away; of the records there were, it
/// changes only the DAO's counter, which goes up by exactly one.
pub proof fn law_init_proposal_evolves(
    pre: LedgerView,
    derived: Option<(Seq<u8>, u8)>,
    creator: Seq<u8>,
    dao_account: Seq<u8>,
    proposal: Seq<u8>,
    metadata: Seq<char>,
)
    ensures
        evolves(pre, init_proposal_effect(pre, derived, creator, dao_account, proposal, metadata)),
        init_proposal_result(pre, derived, dao_account, proposal) is Ok ==> dao_at(
            init_proposal_effect(pre, derived, creator, dao_account, proposal, metadata),
            dao_account,
        ) is Some && dao_at(
            init_proposal_effect(pre, derived, creator, dao_account, proposal, metadata),
            dao_account,
        )->Some_0.proposal_count == dao_at(pre, dao_account)->Some_0.proposal_count + 1,
{
}

/// Casting a vote takes no record away; of the records there were, it
/// changes only one tally of the proposal, which does not go down.
pub proof fn law_cast_vote_evolves(
    pre: LedgerView,
    derived: Option<(Seq<u8>, u8)>,
    voter: Seq<u8>,
    dao_account: Seq<u8>,
    proposal: Seq<u8>,
    vote_account: Seq<u8>,
    tokens: TokenAccountView,
    vote_type: u8,
)
    ensures
        evolves(
            pre,
            cast_vote_effect(
                pre,
                derived,
                voter,
                dao_account,
                proposal,
                vote_account,
                tokens,
                vote_type,
            ),
        ),
{
}

/// A proposal is created only at an address that held no record, and under
/// a DAO that is there.
pub proof fn law_init_proposal_fresh(
    pre: LedgerView,
    derived: Option<(Seq<u8>, u8)>,
    creator: Seq<u8>,
    dao_account: Seq<u8>,
    proposal: Seq<u8>,
    metadata: Seq<char>,
)
    requires
        init_proposal_result(pre, derived, dao_account, proposal) is Ok,
    ensures
        dao_at(pre, dao_account) is Some,
        !pre.contains_key(proposal),
        derived is Some && derived->Some_0.0 == proposal,
        proposal_at(
            init_proposal_effect(pre, derived, creator, dao_account, proposal, metadata),
            proposal,
        ) is Some,
{
}

/// One request to create a proposal.
pub struct ProposalRequest {
    /// Who signs the request.
    pub creator: Seq<u8>,
    /// The address given for the new proposal.
    pub proposal: Seq<u8>,
    /// The proposal's metadata.
    pub metadata: Seq<char>,
}

/// `states` is the history of the ledger over a run of successful
/// `init_proposal` calls under the DAO at `dao_account`, one call per
/// request: each call starts from the state before it and leaves the state
/// after it.
pub open spec fn proposals_created(
    states: Seq<LedgerView>,
    program: Seq<u8>,
    dao_account: Seq<u8>,
    requests: Seq<ProposalRequest>,
) -> bool {
    &&& states.len() == requests.len() + 1
    &&& forall|i: int|
        0 <= i < requests.len() ==> init_proposal_result(
            #[trigger] states[i],
            next_proposal_address(states[i], program, dao_account),
            dao_account,
            requests[i].proposal,
        ) is Ok && states[i + 1] == init_proposal_effect(
            states[i],
            next_proposal_address(states[i], program, dao_account),
            requests[i].creator,
            dao_account,
            requests[i].proposal,
            requests[i].metadata,
        )
}

/// After the first `done` calls of such a run the DAO's counter has gone up
/// by `done`, and the proposals created so far are all still there.
proof fn lemma_proposals_created_prefix(
    states: Seq<LedgerView>,
    program: Seq<u8>,
    dao_account: Seq<u8>,
    requests: Seq<ProposalRequest>,
    done: int,
)
    requires
        proposals_created(states, program, dao_account, requests),
        dao_at(states[0], dao_account) is Some,
        0 <= done <= requests.len(),
    ensures
        dao_at(states[done], dao_account) is Some,
        dao_at(states[done], dao_account)->Some_0.proposal_count == dao_at(
            states[0],
            dao_account,
        )->Some_0.proposal_count + done,
        forall|i: int| 0 <= i < done ==> states[done].contains_key(#[trigger] requests[i].proposal),
    decreases done,
{
    if done > 0 {
        lemma_proposals_created_prefix(states, program, dao_account, requests, done - 1);
        let before = states[done - 1];
        assert(init_proposal_result(
            before,
            next_proposal_address(before, program, dao_account),
            dao_account,
            requests[done - 1].proposal,
        ) is Ok);
        assert(states[done] == init_proposal_effect(
            before,
            next_proposal_address(before, program, dao_account),
            requests[done - 1].creator,
            dao_account,
            requests[done - 1].proposal,
            requests[done - 1].metadata,
        ));
        assert forall|i: int| 0 <= i < done implies states[done].contains_key(
            #[trigger] requests[i].proposal,
        ) by {
            if i < done - 1 {
                assert(before.contains_key(requests[i].proposal));
            }
        }
    }
}

/// Under any DAO, a run of `n` successful `init_proposal` calls raises the
/// counter by exactly `n`, so a DAO that starts with none counts `n`; and no
/// two of the calls created their proposal at the same address.
pub proof fn law_proposal_count(
    states: Seq<LedgerView>,
    program: Seq<u8>,
    dao_account: Seq<u8>,
    requests: Seq<ProposalRequest>,
)
    requires
        proposals_created(states, program, dao_account, requests),
        dao_at(states[0], dao_account) is Some,
    ensures
        dao_at(states.last(), dao_account) is Some,
        dao_at(states.last(), dao_account)->Some_0.proposal_count == dao_at(
            states[0],
            dao_account,
        )->Some_0.proposal_count + requests.len(),
        forall|i: int, j: int|
            0 <= i < j < requests.len() ==> #[trigger] requests[i].proposal
                != #[trigger] requests[j].proposal,
        forall|i: int|
            0 <= i < requests.len() ==> next_proposal_address(
                #[trigger] states[i],
                program,
                dao_account,
            ) is Some && next_proposal_address(states[i], program, dao_account)->Some_0.0
                == requests[i].proposal,
{
    lemma_proposals_created_prefix(states, program, dao_account, requests, requests.len() as int);
    assert forall|i: int, j: int| 0 <= i < j < requests.len() implies #[trigger] requests[i].proposal
        != #[trigger] requests[j].proposal by {
        lemma_proposals_created_prefix(states, program, dao_account, requests, j);
        assert(states[j].contains_key(requests[i].proposal));
        assert(init_proposal_result(
            states[j],
            next_proposal_address(states[j], program, dao_account),
            dao_account,
            requests[j].proposal,
        ) is Ok);
    }
    assert forall|i: int| 0 <= i < requests.len() implies next_proposal_address(
        #[trigger] states[i],
        program,
        dao_account,
    ) is Some && next_proposal_address(states[i], program, dao_account)->Some_0.0
        == requests[i].proposal by {
        assert(init_proposal_result(
            states[i],
            next_proposal_address(states[i], program, dao_account),
            dao_account,
            requests[i].proposal,
        ) is Ok);
    }
}

/// A vote whose type is neither 0 nor 1 is always refused and changes
/// nothing. Where the DAO and the proposal are there, the proposal belongs to
/// the DAO and the token account to the voter, the refusal is
/// `InvalidVoteType`.
pub proof fn law_invalid_vote_type(
    pre: LedgerView,
    derived: Option<(Seq<u8>, u8)>,
    voter: Seq<u8>,
    dao_account: Seq<u8>,
    proposal: Seq<u8>,
    vote_account: Seq<u8>,
    tokens: TokenAccountView,
    vote_type: u8,
)
    requires
        !valid_vote_type(vote_type),
    ensures
        cast_vote_result(
            pre,
            derived,
            voter,
            dao_account,
            proposal,
            vote_account,
            tokens,
            vote_type,
        ) is Err,
        cast_vote_effect(
            pre,
            derived,
            voter,
            dao_account,
            proposal,
            vote_account,
            tokens,
            vote_type,
        ) == pre,
        dao_at(pre, dao_account) is Some && proposal_at(pre, proposal) is Some && proposal_at(
            pre,
            proposal,
        )->Some_0.authority == dao_at(pre, dao_account)->Some_0.authority && tokens.owner == voter
            ==> cast_vote_result(
            pre,
            derived,
            voter,
            dao_account,
            proposal,
            vote_account,
            tokens,
            vote_type,
        ) == Err::<(), Rejection>(Rejection::Voting(VotingError::InvalidVoteType)),
{
}

/// A vote with a token account that the voter does not own is always refused
/// and changes nothing. Where the DAO and the proposal are there and the
/// proposal belongs to the DAO, the refusal is `InvalidTokenAccount`.
pub proof fn law_invalid_token_account(
    pre: LedgerView,
    derived: Option<(Seq<u8>, u8)>,
    voter: Seq<u8>,
    dao_account: Seq<u8>,
    proposal: Seq<u8>,
    vote_account: Seq<u8>,
    tokens: TokenAccountView,
    vote_type: u8,
)
    requires
        tokens.owner != voter,
    ensures
        cast_vote_result(
            pre,
            derived,
            voter,
            dao_account,
            proposal,
            vote_account,
            tokens,
            vote_type,
        ) is Err,
        cast_vote_effect(
            pre,
            derived,
            voter,
            dao_account,
            proposal,
            vote_account,
            tokens,
            vote_type,
        ) == pre,
        dao_at(pre, dao_account) is Some && proposal_at(pre, proposal) is Some && proposal_at(
            pre,
            proposal,
        )->Some_0.authority == dao_at(pre, dao_account)->Some_0.authority ==> cast_vote_result(
            pre,
            derived,
            voter,
            dao_account,
            proposal,
            vote_account,
            tokens,
            vote_type,
        ) == Err::<(), Rejection>(Rejection::Voting(VotingError::InvalidTokenAccount)),
{
}

/// A vote on a proposal whose authority is not that of the DAO presented
/// with it is always refused as `InvalidProposal`, and changes nothing.
pub proof fn law_invalid_proposal(
    pre: LedgerView,
    derived: Option<(Seq<u8>, u8)>,
    voter: Seq<u8>,
    dao_account: Seq<u8>,
    proposal: Seq<u8>,
    vote_account: Seq<u8>,
    tokens: TokenAccountView,
    vote_type: u8,
)
    requires
        dao_at(pre, dao_account) is Some,
        proposal_at(pre, proposal) is Some,
        proposal_at(pre, proposal)->Some_0.authority != dao_at(pre, dao_account)->Some_0.authority,
    ensures
        cast_vote_result(
            pre,
            derived,
            voter,
            dao_account,
            proposal,
            vote_account,
            tokens,
            vote_type,
        ) == Err::<(), Rejection>(Rejection::Voting(VotingError::InvalidProposal)),
        cast_vote_effect(
            pre,
            derived,
            voter,
            dao_account,
            proposal,
            vote_account,
            tokens,
            vote_type,
        ) == pre,
{
}

/// A successful vote leaves exactly one new record: the vote, at the address
/// derived for the voter and the proposal, which held nothing before.
pub proof fn law_vote_recorded(
    pre: LedgerView,
    derived: Option<(Seq<u8>, u8)>,
    voter: Seq<u8>,
    dao_account: Seq<u8>,
    proposal: Seq<u8>,
    vote_account: Seq<u8>,
    tokens: TokenAccountView,
    vote_type: u8,
)
    requires
        cast_vote_result(
            pre,
            derived,
            voter,
            dao_account,
            proposal,
            vote_account,
            tokens,
            vote_type,
        ) is Ok,
    ensures
        derived is Some && derived->Some_0.0 == vote_account,
        !pre.contains_key(vote_account),
        vote_at(
            cast_vote_effect(
                pre,
                derived,
                voter,
                dao_account,
                proposal,
                vote_account,
                tokens,
                vote_type,
            ),
            vote_account,
        ) is Some,
        cast_vote_effect(
            pre,
            derived,
            voter,
            dao_account,
            proposal,
            vote_account,
            tokens,
            vote_type,
        ).dom() == pre.dom().insert(vote_account),
{
    let post = cast_vote_effect(
        pre,
        derived,
        voter,
        dao_account,
        proposal,
        vote_account,
        tokens,
        vote_type,
    );
    assert(pre.contains_key(proposal));
    assert(post.dom() =~= pre.dom().insert(vote_account));
}

/// A voter votes at most once on a proposal. Once a vote of `voter` on the
/// proposal at `proposal` has succeeded, every later `cast_vote` of that
/// voter on that proposal fails and changes nothing, whatever else it
/// presents and whatever happened to the ledger in between.
pub proof fn law_one_vote_per_voter(
    pre: LedgerView,
    program: Seq<u8>,
    voter: Seq<u8>,
    proposal: Seq<u8>,
    dao_account: Seq<u8>,
    vote_account: Seq<u8>,
    tokens: TokenAccountView,
    vote_type: u8,
    later: LedgerView,
    again_dao_account: Seq<u8>,
    again_vote_account: Seq<u8>,
    again_tokens: TokenAccountView,
    again_vote_type: u8,
)
    requires
        cast_vote_result(
            pre,
            program_address(vote_seeds(voter, proposal), program),
            voter,
            dao_account,
            proposal,
            vote_account,
            tokens,
            vote_type,
        ) is Ok,
        evolves(
            cast_vote_effect(
                pre,
                program_address(vote_seeds(voter, proposal), program),
                voter,
                dao_account,
                proposal,
                vote_account,
                tokens,
                vote_type,
            ),
            later,
        ),
    ensures
        cast_vote_result(
            later,
            program_address(vote_seeds(voter, proposal), program),
            voter,
            again_dao_account,
            proposal,
            again_vote_account,
            again_tokens,
            again_vote_type,
        ) is Err,
        cast_vote_effect(
            later,
            program_address(vote_seeds(voter, proposal), program),
            voter,
            again_dao_account,
            proposal,
            again_vote_account,
            again_tokens,
            again_vote_type,
        ) == later,
{
    let derived = program_address(vote_seeds(voter, proposal), program);
    let post = cast_vote_effect(
        pre,
        derived,
        voter,
        dao_account,
        proposal,
        vote_account,
        tokens,
        vote_type,
    );
    assert(post.contains_key(vote_account));
    assert(later.contains_key(vote_account));
}

/// The weight of a vote is the integer square root of the balance, exactly:
/// its square does not exceed the balance, the square of the next number
/// does, and it fits in 32 bits.
pub proof fn law_credits_exact(balance: u64)
    ensures
        credits_of(balance) == floor_sqrt(balance as nat),
        is_floor_sqrt(balance as nat, credits_of(balance) as nat),
        credits_of(balance) <= 0xffff_ffff,
{
    lemma_floor_sqrt_exists(balance as nat);
    let root = floor_sqrt(balance as nat);
    if root > 0xffff_ffff {
        assert(root * root >= 0x1_0000_0000 * 0x1_0000_0000) by (nonlinear_arith)
            requires
                root >= 0x1_0000_0000,
        ;
    }
}

/// Votes of two voters on one proposal commute: where the vote of one and
/// then the vote of the other succeed, they also succeed in the other order,
/// and the ledger is the same in the end.
pub proof fn law_votes_commute(
    pre: LedgerView,
    proposal: Seq<u8>,
    first_derived: Option<(Seq<u8>, u8)>,
    first_voter: Seq<u8>,
    first_dao_account: Seq<u8>,
    first_vote_account: Seq<u8>,
    first_tokens: TokenAccountView,
    first_vote_type: u8,
    second_derived: Option<(Seq<u8>, u8)>,
    second_voter: Seq<u8>,
    second_dao_account: Seq<u8>,
    second_vote_account: Seq<u8>,
    second_tokens: TokenAccountView,
    second_vote_type: u8,
)
    requires
        cast_vote_result(
            pre,
            first_derived,
            first_voter,
            first_dao_account,
            proposal,
            first_vote_account,
            first_tokens,
            first_vote_type,
        ) is Ok,
        cast_vote_result(
            cast_vote_effect(
                pre,
                first_derived,
                first_voter,
                first_dao_account,
                proposal,
                first_vote_account,
                first_tokens,
                first_vote_type,
            ),
            second_derived,
            second_voter,
            second_dao_account,
            proposal,
            second_vote_account,
            second_tokens,
            second_vote_type,
        ) is Ok,
    ensures
        cast_vote_result(
            pre,
            second_derived,
            second_voter,
            second_dao_account,
            proposal,
            second_vote_account,
            second_tokens,
            second_vote_type,
        ) is Ok,
        cast_vote_result(
            cast_vote_effect(
                pre,
                second_derived,
                second_voter,
                second_dao_account,
                proposal,
                second_vote_account,
                second_tokens,
                second_vote_type,
            ),
            first_derived,
            first_voter,
            first_dao_account,
            proposal,
            first_vote_account,
            first_tokens,
            first_vote_type,
        ) is Ok,
        cast_vote_effect(
            cast_vote_effect(
                pre,
                second_derived,
                second_voter,
                second_dao_account,
                proposal,
                second_vote_account,
                second_tokens,
                second_vote_type,
            ),
            first_derived,
            first_voter,
            first_dao_account,
            proposal,
            first_vote_account,
            first_tokens,
            first_vote_type,
        ) == cast_vote_effect(
            cast_vote_effect(
                pre,
                first_derived,
                first_voter,
                first_dao_account,
                proposal,
                first_vote_account,
                first_tokens,
                first_vote_type,
            ),
            second_derived,
            second_voter,
            second_dao_account,
            proposal,
            second_vote_account,
            second_tokens,
            second_vote_type,
        ),
{
    let after_first = cast_vote_effect(
        pre,
        first_derived,
        first_voter,
        first_dao_account,
        proposal,
        first_vote_account,
        first_tokens,
        first_vote_type,
    );
    let after_second = cast_vote_effect(
        pre,
        second_derived,
        second_voter,
        second_dao_account,
        proposal,
        second_vote_account,
        second_tokens,
        second_vote_type,
    );
    let first_then_second = cast_vote_effect(
        after_first,
        second_derived,
        second_voter,
        second_dao_account,
        proposal,
        second_vote_account,
        second_tokens,
        second_vote_type,
    );
    let second_then_first = cast_vote_effect(
        after_second,
        first_derived,
        first_voter,
        first_dao_account,
        proposal,
        first_vote_account,
        first_tokens,
        first_vote_type,
    );
    assert(pre.contains_key(proposal));
    assert(pre.contains_key(first_dao_account));
    assert(after_first.contains_key(first_vote_account));
    assert(first_vote_account != second_vote_account);
    assert(dao_at(after_first, second_dao_account) == dao_at(pre, second_dao_account));
    assert(dao_at(after_second, first_dao_account) == dao_at(pre, first_dao_account));
    assert(second_then_first =~= first_then_second);
}

} // verus!
