//! The ledger: the store of records, one per address.
//!
//! A record is created at an address that holds none, and from then on that
//! address is taken: it can be read and rewritten, never created again and
//! never removed. This is what makes a second DAO for one authority, or a
//! second vote of one voter on one proposal, impossible.

use crate::address::Address;
use crate::errors::Rejection;
use crate::state::{Account, AccountView, Dao, DaoView, Proposal, ProposalView, Vote, VoteView};
use vstd::prelude::*;

verus! {

/// The model of a ledger: which address holds which record.
pub type LedgerView = Map<Seq<u8>, AccountView>;

/// The DAO at `address`, if that address holds one.
pub open spec fn dao_at(ledger: LedgerView, address: Seq<u8>) -> Option<DaoView> {
    if ledger.contains_key(address) {
        match ledger[address] {
            AccountView::Dao(dao) => Some(dao),
            _ => None,
        }
    } else {
        None
    }
}

/// The proposal at `address`, if that address holds one.
pub open spec fn proposal_at(ledger: LedgerView, address: Seq<u8>) -> Option<ProposalView> {
    if ledger.contains_key(address) {
        match ledger[address] {
            AccountView::Proposal(proposal) => Some(proposal),
            _ => None,
        }
    } else {
        None
    }
}

/// The vote at `address`, if that address holds one.
pub open spec fn vote_at(ledger: LedgerView, address: Seq<u8>) -> Option<VoteView> {
    if ledger.contains_key(address) {
        match ledger[address] {
            AccountView::Vote(vote) => Some(vote),
            _ => None,
        }
    } else {
        None
    }
}

/// A record together with the address that holds it.
struct Entry {
    address: Address,
    account: Account,
}

/// Entry `i` is the one at `address`.
spec fn is_at(entries: Seq<Entry>, address: Seq<u8>, i: int) -> bool {
    0 <= i < entries.len() && entries[i].address@ == address
}

/// No address occurs in two entries.
spec fn distinct(entries: Seq<Entry>) -> bool {
    forall|i: int, j: int|
        0 <= i < j < entries.len() ==> #[trigger] entries[i].address@ != #[trigger] entries[j].address@
}

/// The map from each entry's address to its record.
spec fn model_of(entries: Seq<Entry>) -> LedgerView {
    Map::new(
        |address: Seq<u8>| exists|i: int| is_at(entries, address, i),
        |address: Seq<u8>| entries[choose|i: int| is_at(entries, address, i)].account@,
    )
}

/// In a list without repeated addresses, the model holds each entry's record
/// at that entry's address.
proof fn lemma_model_at(entries: Seq<Entry>, i: int)
    requires
        distinct(entries),
        0 <= i < entries.len(),
    ensures
        model_of(entries).contains_key(entries[i].address@),
        model_of(entries)[entries[i].address@] == entries[i].account@,
{
    let address = entries[i].address@;
    assert(is_at(entries, address, i));
    let j = choose|j: int| is_at(entries, address, j);
    assert(is_at(entries, address, j));
    assert(j == i);
}

/// Appending an entry at a fresh address inserts it into the model.
proof fn lemma_model_push(entries: Seq<Entry>, entry: Entry)
    requires
        distinct(entries),
        !model_of(entries).contains_key(entry.address@),
    ensures
        distinct(entries.push(entry)),
        model_of(entries.push(entry)) == model_of(entries).insert(entry.address@, entry.account@),
{
    let after = entries.push(entry);
    let last = entries.len() as int;
    assert forall|i: int, j: int| 0 <= i < j < after.len() implies #[trigger] after[i].address@
        != #[trigger] after[j].address@ by {
        if j == last {
            assert(is_at(entries, entries[i].address@, i));
        }
    }
    assert forall|address: Seq<u8>|
        model_of(after).contains_key(address) <==> model_of(entries).insert(
            entry.address@,
            entry.account@,
        ).contains_key(address) by {
        if model_of(after).contains_key(address) {
            let i = choose|i: int| is_at(after, address, i);
            if i < last {
                assert(is_at(entries, address, i));
            }
        }
        if model_of(entries).contains_key(address) {
            let i = choose|i: int| is_at(entries, address, i);
            assert(is_at(after, address, i));
        }
        if address == entry.address@ {
            assert(is_at(after, address, last));
        }
    }
    assert forall|address: Seq<u8>| model_of(after).contains_key(address) implies model_of(
        after,
    )[address] == model_of(entries).insert(entry.address@, entry.account@)[address] by {
        let i = choose|i: int| is_at(after, address, i);
        lemma_model_at(after, i);
        if i < last {
            lemma_model_at(entries, i);
        }
    }
    assert(model_of(after) =~= model_of(entries).insert(entry.address@, entry.account@));
}

/// Replacing the record of entry `i` replaces it in the model.
proof fn lemma_model_update(entries: Seq<Entry>, i: int, entry: Entry)
    requires
        distinct(entries),
        0 <= i < entries.len(),
        entry.address@ == entries[i].address@,
    ensures
        distinct(entries.update(i, entry)),
        model_of(entries.update(i, entry)) == model_of(entries).insert(
            entry.address@,
            entry.account@,
        ),
{
    let after = entries.update(i, entry);
    assert forall|a: int, b: int| 0 <= a < b < after.len() implies #[trigger] after[a].address@
        != #[trigger] after[b].address@ by {
        assert(entries[a].address@ != entries[b].address@);
    }
    assert forall|address: Seq<u8>|
        model_of(after).contains_key(address) <==> model_of(entries).insert(
            entry.address@,
            entry.account@,
        ).contains_key(address) by {
        if model_of(after).contains_key(address) {
            let k = choose|k: int| is_at(after, address, k);
            assert(is_at(entries, address, k));
        }
        if model_of(entries).contains_key(address) {
            let k = choose|k: int| is_at(entries, address, k);
            assert(is_at(after, address, k));
        }
        if address == entry.address@ {
            assert(is_at(after, address, i));
        }
    }
    assert forall|address: Seq<u8>| model_of(after).contains_key(address) implies model_of(
        after,
    )[address] == model_of(entries).insert(entry.address@, entry.account@)[address] by {
        let k = choose|k: int| is_at(after, address, k);
        lemma_model_at(after, k);
        if k != i {
            lemma_model_at(entries, k);
        }
    }
    assert(model_of(after) =~= model_of(entries).insert(entry.address@, entry.account@));
}

/// The store of all records, keyed by address.
pub struct Ledger {
    entries: Vec<Entry>,
}

impl View for Ledger {
    type V = LedgerView;

    closed spec fn view(&self) -> LedgerView {
        model_of(self.entries@)
    }
}

impl Ledger {
    #[verifier::type_invariant]
    spec fn well_formed(self) -> bool {
        distinct(self.entries@)
    }

    /// A ledger that holds no record.
    pub fn new() -> (ledger: Ledger)
        ensures
            ledger@ == Map::<Seq<u8>, AccountView>::empty(),
    {
        let ledger = Ledger { entries: Vec::new() };
        assert(ledger@ =~= Map::<Seq<u8>, AccountView>::empty());
        ledger
    }

    /// Where in the list the record at `address` stands.
    fn position(&self, address: &Address) -> (found: Option<usize>)
        ensures
            match found {
                Some(i) => is_at(self.entries@, address@, i as int),
                None => !self@.contains_key(address@),
            },
    {
        let mut i: usize = 0;
        while i < self.entries.len()
            invariant
                i <= self.entries.len(),
                forall|j: int| 0 <= j < i ==> !is_at(self.entries@, address@, j),
            decreases self.entries.len() - i,
        {
            if self.entries[i].address == *address {
                return Some(i);
            }
            i += 1;
        }
        None
    }

    /// Whether `address` holds a record.
    pub fn contains(&self, address: &Address) -> (held: bool)
        ensures
            held == self@.contains_key(address@),
    {
        proof {
            use_type_invariant(self);
        }
        match self.position(address) {
            Some(i) => {
                proof {
                    lemma_model_at(self.entries@, i as int);
                }
                true
            },
            None => false,
        }
    }

    /// The record at `address`.
    pub fn get(&self, address: &Address) -> (found: Option<&Account>)
        ensures
            match found {
                Some(account) => self@.contains_key(address@) && self@[address@] == account@,
                None => !self@.contains_key(address@),
            },
    {
        proof {
            use_type_invariant(self);
        }
        match self.position(address) {
            Some(i) => {
                proof {
                    lemma_model_at(self.entries@, i as int);
                }
                Some(&self.entries[i].account)
            },
            None => None,
        }
    }

    /// The DAO at `address`; `None` where the address holds no DAO.
    pub fn dao(&self, address: &Address) -> (found: Option<Dao>)
        ensures
            match found {
                Some(dao) => Some(dao@),
                None => None,
            } == dao_at(self@, address@),
    {
        match self.get(address) {
            Some(Account::Dao(dao)) => Some(dao.clone()),
            _ => None,
        }
    }

    /// The proposal at `address`; `None` where the address holds no proposal.
    pub fn proposal(&self, address: &Address) -> (found: Option<Proposal>)
        ensures
            match found {
                Some(proposal) => Some(proposal@),
                None => None,
            } == proposal_at(self@, address@),
    {
        match self.get(address) {
            Some(Account::Proposal(proposal)) => Some(proposal.clone()),
            _ => None,
        }
    }

    /// The vote at `address`; `None` where the address holds no vote.
    pub fn vote(&self, address: &Address) -> (found: Option<Vote>)
        ensures
            match found {
                Some(vote) => Some(vote@),
                None => None,
            } == vote_at(self@, address@),
    {
        match self.get(address) {
            Some(Account::Vote(vote)) => Some(*vote),
            _ => None,
        }
    }

    /// Creates `account` at `address`, unless the address is taken.
    pub fn create(&mut self, address: &Address, account: Account) -> (result: Result<(), Rejection>)
        ensures
            old(self)@.contains_key(address@) ==> result == Err::<(), Rejection>(
                Rejection::AddressOccupied,
            ) && final(self)@ == old(self)@,
            !old(self)@.contains_key(address@) ==> result == Ok::<(), Rejection>(()),
            !old(self)@.contains_key(address@) ==> final(self)@ == old(self)@.insert(
                address@,
                account@,
            ),
    {
        proof {
            use_type_invariant(&*self);
        }
        if self.contains(address) {
            return Err(Rejection::AddressOccupied);
        }
        let entry = Entry { address: *address, account };
        let mut entries: Vec<Entry> = Vec::new();
        std::mem::swap(&mut entries, &mut self.entries);
        proof {
            lemma_model_push(entries@, entry);
        }
        entries.push(entry);
        self.entries = entries;
        Ok(())
    }

    /// Replaces the record at `address` by `account`, if the address holds one.
    pub fn update(&mut self, address: &Address, account: Account) -> (result: Result<(), Rejection>)
        ensures
            old(self)@.contains_key(address@) ==> result == Ok::<(), Rejection>(()),
            old(self)@.contains_key(address@) ==> final(self)@ == old(self)@.insert(
                address@,
                account@,
            ),
            !old(self)@.contains_key(address@) ==> result == Err::<(), Rejection>(
                Rejection::RecordAbsent,
            ) && final(self)@ == old(self)@,
    {
        proof {
            use_type_invariant(&*self);
        }
        match self.position(address) {
            None => Err(Rejection::RecordAbsent),
            Some(i) => {
                let entry = Entry { address: *address, account };
                let mut entries: Vec<Entry> = Vec::new();
                std::mem::swap(&mut entries, &mut self.entries);
                proof {
                    lemma_model_at(entries@, i as int);
                    lemma_model_update(entries@, i as int, entry);
                }
                entries.set(i, entry);
                self.entries = entries;
                Ok(())
            },
        }
    }
}

} // verus!
