//! The daily claim: once per calendar day of the reference zone, a reward
//! from 1 to 15 nuggets.

use crate::calendar::CalendarDate;
use crate::chance::roll_between;
use crate::ledger::{Account, StoreOp};
use vstd::prelude::*;

verus! {

/// The smallest daily reward.
pub const SMALLEST_REWARD: i64 = 1;

/// The largest daily reward.
pub const LARGEST_REWARD: i64 = 15;

/// How a claim ended.
#[derive(Clone, Copy, Debug, PartialEq, Eq)]
pub enum ClaimOutcome {
    /// The user had no account: one was opened with the reward.
    FirstBonus { amount: i64, new_balance: i64 },
    /// The reward was added to the account.
    Claimed { amount: i64, new_balance: i64 },
    /// The account has already claimed on this day: nothing changed.
    AlreadyClaimed { balance: i64 },
}

impl ClaimOutcome {
    pub open spec fn already_claimed(self) -> bool {
        self is AlreadyClaimed
    }

    /// The nuggets granted: none when the day was already claimed.
    pub open spec fn amount(self) -> int {
        match self {
            ClaimOutcome::FirstBonus { amount, new_balance } => amount as int,
            ClaimOutcome::Claimed { amount, new_balance } => amount as int,
            ClaimOutcome::AlreadyClaimed { balance } => 0,
        }
    }

    /// The balance after the claim.
    pub open spec fn new_balance(self) -> int {
        match self {
            ClaimOutcome::FirstBonus { amount, new_balance } => new_balance as int,
            ClaimOutcome::Claimed { amount, new_balance } => new_balance as int,
            ClaimOutcome::AlreadyClaimed { balance } => balance as int,
        }
    }
}

/// A claim's outcome and the write that commits it, if it changes anything.
#[derive(Clone, Copy, Debug, PartialEq, Eq)]
pub struct ClaimSettlement {
    pub outcome: ClaimOutcome,
    pub write: Option<StoreOp>,
}

/// The account exists and its last claim was made on `today`.
pub open spec fn claimed_on(existing: Option<Account>, today: CalendarDate) -> bool {
    existing matches Some(account) && account.last_claim_date == Some(today)
}

/// What a claim on `today` comes to, given the user's row as it was read
/// and the reward that was drawn.
///
/// Without a row, one is inserted that holds the reward; with a row last
/// claimed on `today`, nothing is granted and nothing written; otherwise the
/// reward is added and the claim date set.
pub open spec fn claim_settled(
    existing: Option<Account>,
    user_id: u64,
    today: CalendarDate,
    reward: int,
) -> ClaimSettlement {
    match existing {
        None => ClaimSettlement {
            outcome: ClaimOutcome::FirstBonus {
                amount: reward as i64,
                new_balance: reward as i64,
            },
            write: Some(
                StoreOp::Insert(
                    Account { user_id, balance: reward as i64, last_claim_date: Some(today) },
                ),
            ),
        },
        Some(account) => if account.last_claim_date == Some(today) {
            ClaimSettlement {
                outcome: ClaimOutcome::AlreadyClaimed { balance: account.balance },
                write: None,
            }
        } else {
            ClaimSettlement {
                outcome: ClaimOutcome::Claimed {
                    amount: reward as i64,
                    new_balance: (account.balance + reward) as i64,
                },
                write: Some(
                    StoreOp::UpdateClaim(
                        Account {
                            user_id: account.user_id,
                            balance: (account.balance + reward) as i64,
                            last_claim_date: Some(today),
                        },
                    ),
                ),
            }
        },
    }
}

/// The reward has room: where the claim adds it to a balance, the sum fits
/// the ledger's 64-bit balance. A first claim and a claim on a day that is
/// already claimed always have room.
pub open spec fn claim_has_room(existing: Option<Account>, today: CalendarDate, reward: int) -> bool {
    existing matches Some(account) ==> account.last_claim_date == Some(today) || account.balance
        + reward <= 0x7fff_ffff_ffff_ffff
}

/// Whether the row shows a claim made on `today`.
pub fn has_claimed_on(existing: &Option<Account>, today: CalendarDate) -> (claimed: bool)
    ensures
        claimed == claimed_on(*existing, today),
{
    match existing {
        Some(account) => match account.last_claim_date {
            Some(date) => date == today,
            None => false,
        },
        None => false,
    }
}

/// Tells whether a reward has room in the row's balance.
pub fn has_room_for(existing: &Option<Account>, today: CalendarDate, reward: i64) -> (room: bool)
    ensures
        room == claim_has_room(*existing, today, reward as int),
{
    match existing {
        Some(account) => has_claimed_on(existing, today) || reward <= 0 || account.balance
            <= i64::MAX - reward,
        None => true,
    }
}

/// Settles a claim whose reward is already drawn.
pub fn settle_claim(
    existing: Option<Account>,
    user_id: u64,
    today: CalendarDate,
    reward: i64,
) -> (settlement: ClaimSettlement)
    requires
        SMALLEST_REWARD <= reward <= LARGEST_REWARD,
        claim_has_room(existing, today, reward as int),
    ensures
        settlement == claim_settled(existing, user_id, today, reward as int),
{
    let claimed = has_claimed_on(&existing, today);
    match existing {
        None => ClaimSettlement {
            outcome: ClaimOutcome::FirstBonus { amount: reward, new_balance: reward },
            write: Some(
                StoreOp::Insert(Account { user_id, balance: reward, last_claim_date: Some(today) }),
            ),
        },
        Some(account) => {
            if claimed {
                ClaimSettlement {
                    outcome: ClaimOutcome::AlreadyClaimed { balance: account.balance },
                    write: None,
                }
            } else {
                let new_balance: i64 = account.balance + reward;
                ClaimSettlement {
                    outcome: ClaimOutcome::Claimed { amount: reward, new_balance },
                    write: Some(
                        StoreOp::UpdateClaim(
                            Account {
                                user_id: account.user_id,
                                balance: new_balance,
                                last_claim_date: Some(today),
                            },
                        ),
                    ),
                }
            }
        },
    }
}

/// A claim on `today` for the user whose row was read as `existing`: draws
/// the reward, unless the day is already claimed, and settles.
pub fn claim_daily(existing: Option<Account>, user_id: u64, today: CalendarDate) -> (settlement:
    ClaimSettlement)
    requires
        claim_has_room(existing, today, LARGEST_REWARD as int),
    ensures
        exists|reward: int|
            SMALLEST_REWARD <= reward <= LARGEST_REWARD && settlement == #[trigger] claim_settled(
                existing,
                user_id,
                today,
                reward,
            ),
{
    if has_claimed_on(&existing, today) {
        let settlement = settle_claim(existing, user_id, today, SMALLEST_REWARD);
        assert(settlement == claim_settled(existing, user_id, today, SMALLEST_REWARD as int));
        settlement
    } else {
        let reward: i64 = roll_between(SMALLEST_REWARD, LARGEST_REWARD);
        let settlement = settle_claim(existing, user_id, today, reward);
        assert(settlement == claim_settled(existing, user_id, today, reward as int));
        settlement
    }
}

} // verus!
