use vstd::prelude::*;

use crate::model::{has_associated, model_wf, LedgerModel};
use crate::state::{MintRecord, TokenAccountRecord};
use crate::table::{lemma_entries_map_contains, lemma_entries_map_index, Table};

verus! {

/// Every account the token program has created: the mints and the token
/// accounts, each stored at its address.
#[derive(Clone, Debug)]
pub struct Ledger {
    pub mints: Table<MintRecord>,
    pub accounts: Table<TokenAccountRecord>,
}

impl View for Ledger {
    type V = LedgerModel;

    open spec fn view(&self) -> LedgerModel {
        LedgerModel { mints: self.mints@, accounts: self.accounts@ }
    }
}

impl Ledger {
    /// Both tables are well formed and no address is used twice.
    pub open spec fn wf(&self) -> bool {
        self.mints.wf() && self.accounts.wf() && model_wf(self@)
    }

    /// A ledger with no accounts at all.
    pub fn new() -> (l: Ledger)
        ensures
            l.wf(),
            l@.mints == Map::<u64, MintRecord>::empty(),
            l@.accounts == Map::<u64, TokenAccountRecord>::empty(),
    {
        Ledger { mints: Table::new(), accounts: Table::new() }
    }

    /// The mint stored at `address`, if any.
    pub fn mint_of(&self, address: u64) -> (r: Option<MintRecord>)
        requires
            self.wf(),
        ensures
            r == if self@.mints.contains_key(address) {
                Some(self@.mints[address])
            } else {
                None::<MintRecord>
            },
    {
        self.mints.get(address)
    }

    /// The token account stored at `address`, if any.
    pub fn account_of(&self, address: u64) -> (r: Option<TokenAccountRecord>)
        requires
            self.wf(),
        ensures
            r == if self@.accounts.contains_key(address) {
                Some(self@.accounts[address])
            } else {
                None::<TokenAccountRecord>
            },
    {
        self.accounts.get(address)
    }

    /// Whether some token account of `mint` owned by `owner` exists.
    pub fn find_associated(&self, mint: u64, owner: u64) -> (r: bool)
        requires
            self.wf(),
        ensures
            r == has_associated(self@.accounts, mint, owner),
    {
        let n = self.accounts.entries.len();
        let mut i: usize = 0;
        while i < n
            invariant
                self.wf(),
                n == self.accounts.entries@.len(),
                0 <= i <= n,
                forall|j: int|
                    0 <= j < i ==> !(self.accounts.entries@[j].record.mint == mint
                        && self.accounts.entries@[j].record.owner == owner),
            decreases n - i,
        {
            if self.accounts.entries[i].record.mint == mint && self.accounts.entries[i].record.owner
                == owner {
                proof {
                    lemma_entries_map_index(self.accounts.entries@, i as int);
                    let a = self.accounts.entries@[i as int].address;
                    assert(self@.accounts.contains_key(a) && self@.accounts[a].mint == mint
                        && self@.accounts[a].owner == owner);
                }
                return true;
            }
            i += 1;
        }
        proof {
            assert forall|a: u64| self@.accounts.contains_key(a) implies !(self@.accounts[a].mint
                == mint && self@.accounts[a].owner == owner) by {
                lemma_entries_map_contains(self.accounts.entries@, a);
                let j = choose|j: int|
                    0 <= j < self.accounts.entries@.len() && self.accounts.entries@[j].address
                        == a;
                lemma_entries_map_index(self.accounts.entries@, j);
            }
        }
        false
    }
}

} // verus!
