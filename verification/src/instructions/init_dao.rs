//! Creating a DAO.

use crate::address::Address;
use crate::errors::VotingError;
use crate::state::{Dao, DaoView};
use vstd::prelude::*;

verus! {

/// The records that `init_dao` works on.
#[derive(Debug)]
pub struct InitDao {
    /// Who signed the request; becomes the DAO's authority.
    pub creator: Address,
    /// The DAO record to fill.
    pub dao_account: Dao,
}

/// The bump seeds of the addresses that `init_dao` derives.
#[derive(Clone, Copy, Debug)]
pub struct InitDaoBumps {
    pub dao_account: u8,
}

/// A DAO as it is when just created: no proposal yet.
pub open spec fn new_dao(creator: Seq<u8>, name: Seq<char>, bump: u8) -> DaoView {
    DaoView { authority: creator, name, proposal_count: 0, bump }
}

impl InitDao {
    /// Fills the DAO record: the creator is its authority, it carries `name`,
    /// and its proposal counter starts at 0.
    pub fn init(&mut self, bumps: &InitDaoBumps, name: String) -> (result: Result<(), VotingError>)
        ensures
            result is Ok,
            final(self).creator == old(self).creator,
            final(self).dao_account@ == new_dao(old(self).creator@, name@, bumps.dao_account),
    {
        self.dao_account = Dao {
            authority: self.creator,
            name,
            proposal_count: 0,
            bump: bumps.dao_account,
        };
        Ok(())
    }
}

} // verus!
