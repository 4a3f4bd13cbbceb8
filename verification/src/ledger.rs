//! Accounts and the table that holds them.
//!
//! The table is what the persistent store is to the economy: one row per
//! user, found by user id, written by three kinds of statement.

use crate::calendar::CalendarDate;
use std::collections::HashMap;
use vstd::prelude::*;

verus! {

broadcast use vstd::std_specs::hash::group_hash_axioms;

/// One user's row: the nuggets owned and the day of the last daily claim.
#[derive(Clone, Copy, Debug, PartialEq, Eq)]
pub struct Account {
    pub user_id: u64,
    pub balance: i64,
    pub last_claim_date: Option<CalendarDate>,
}

impl Account {
    /// No account is ever committed with a negative balance.
    pub open spec fn in_credit(self) -> bool {
        self.balance >= 0
    }
}

/// A write to the table.
#[derive(Clone, Copy, Debug, PartialEq, Eq)]
pub enum StoreOp {
    /// Create the row of a user who has none.
    Insert(Account),
    /// Set balance and claim date of an existing row.
    UpdateClaim(Account),
    /// Set the balance of an existing row.
    UpdateBalance { user_id: u64, balance: i64 },
}

impl StoreOp {
    /// The row that the write addresses.
    pub open spec fn target(self) -> u64 {
        match self {
            StoreOp::Insert(account) => account.user_id,
            StoreOp::UpdateClaim(account) => account.user_id,
            StoreOp::UpdateBalance { user_id, balance } => user_id,
        }
    }

    /// Whether the write changes `table`: an insert needs the row to be
    /// absent, an update needs it to be there.
    pub open spec fn takes_effect(self, table: Map<u64, Account>) -> bool {
        match self {
            StoreOp::Insert(account) => !table.contains_key(account.user_id),
            StoreOp::UpdateClaim(account) => table.contains_key(account.user_id),
            StoreOp::UpdateBalance { user_id, balance } => table.contains_key(user_id),
        }
    }
}

/// The table after a write. A write that does not take effect leaves it as
/// it was.
pub open spec fn applied(table: Map<u64, Account>, op: StoreOp) -> Map<u64, Account> {
    if !op.takes_effect(table) {
        table
    } else {
        match op {
            StoreOp::Insert(account) => table.insert(account.user_id, account),
            StoreOp::UpdateClaim(account) => table.insert(
                account.user_id,
                Account {
                    user_id: account.user_id,
                    balance: account.balance,
                    last_claim_date: account.last_claim_date,
                },
            ),
            StoreOp::UpdateBalance { user_id, balance } => table.insert(
                user_id,
                Account { user_id, balance, last_claim_date: table[user_id].last_claim_date },
            ),
        }
    }
}

/// Every row is stored under its own user id.
pub open spec fn is_keyed(table: Map<u64, Account>) -> bool {
    forall|user_id: u64| #[trigger]
        table.contains_key(user_id) ==> table[user_id].user_id == user_id
}

/// A write keeps every row under its own user id.
pub proof fn lemma_applied_keeps_keys(table: Map<u64, Account>, op: StoreOp)
    requires
        is_keyed(table),
    ensures
        is_keyed(applied(table, op)),
{
}

/// What the table keeps of a row, under the row's user id.
#[derive(Clone, Copy, Debug)]
struct Holding {
    balance: i64,
    last_claim_date: Option<CalendarDate>,
}

/// The table of accounts, held in memory.
pub struct Ledger {
    holdings: HashMap<u64, Holding>,
}

impl View for Ledger {
    type V = Map<u64, Account>;

    closed spec fn view(&self) -> Map<u64, Account> {
        Map::new(
            |user_id: u64| self.holdings@.contains_key(user_id),
            |user_id: u64|
                Account {
                    user_id,
                    balance: self.holdings@[user_id].balance,
                    last_claim_date: self.holdings@[user_id].last_claim_date,
                },
        )
    }
}

impl Ledger {
    /// Every row of a ledger is stored under its own user id.
    pub proof fn lemma_is_keyed(self)
        ensures
            is_keyed(self@),
    {
    }

    /// A table without rows.
    pub fn new() -> (ledger: Ledger)
        ensures
            ledger@ == Map::<u64, Account>::empty(),
    {
        let ledger = Ledger { holdings: HashMap::new() };
        assert(ledger@ =~= Map::<u64, Account>::empty());
        ledger
    }

    /// The row of a user, if there is one.
    pub fn find(&self, user_id: u64) -> (row: Option<Account>)
        ensures
            row == if self@.contains_key(user_id) {
                Some(self@[user_id])
            } else {
                None::<Account>
            },
            row matches Some(account) ==> account.user_id == user_id,
    {
        match self.holdings.get(&user_id) {
            Some(holding) => Some(
                Account {
                    user_id,
                    balance: holding.balance,
                    last_claim_date: holding.last_claim_date,
                },
            ),
            None => None,
        }
    }

    /// Performs a write and says whether it took effect.
    pub fn apply(&mut self, op: StoreOp) -> (written: bool)
        ensures
            final(self)@ == applied(old(self)@, op),
            written == op.takes_effect(old(self)@),
    {
        let written = match op {
            StoreOp::Insert(account) => {
                if self.holdings.contains_key(&account.user_id) {
                    false
                } else {
                    self.holdings.insert(
                        account.user_id,
                        Holding {
                            balance: account.balance,
                            last_claim_date: account.last_claim_date,
                        },
                    );
                    true
                }
            },
            StoreOp::UpdateClaim(account) => {
                if self.holdings.contains_key(&account.user_id) {
                    self.holdings.insert(
                        account.user_id,
                        Holding {
                            balance: account.balance,
                            last_claim_date: account.last_claim_date,
                        },
                    );
                    true
                } else {
                    false
                }
            },
            StoreOp::UpdateBalance { user_id, balance } => {
                let kept = match self.holdings.get(&user_id) {
                    Some(holding) => Some(holding.last_claim_date),
                    None => None,
                };
                match kept {
                    Some(last_claim_date) => {
                        self.holdings.insert(user_id, Holding { balance, last_claim_date });
                        true
                    },
                    None => false,
                }
            },
        };
        assert(self@ =~= applied(old(self)@, op));
        written
    }
}

} // verus!
