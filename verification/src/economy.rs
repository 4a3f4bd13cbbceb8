//! The economy's three operations on the ledger: claim the daily reward,
//! read the balance, play the slot machine.
//!
//! Each operation reads one row and writes it at most once, through
//! `&mut Ledger`: whoever shares a ledger between tasks must hand it out to
//! one of them at a time, and then no claim or play of one user can
//! interleave with another.

use crate::calendar::CalendarDate;
use crate::daily::{
    claim_daily, claim_has_room, claim_settled, settle_claim, ClaimOutcome, LARGEST_REWARD,
    SMALLEST_REWARD,
};
use crate::ledger::{applied, is_keyed, Account, Ledger, StoreOp};
use crate::slots::{
    play_slots, settle_spin, settled, spin_has_room, Reels, SlotOutcome, Tier, ANTE,
    HIGHEST_PLAYABLE_BALANCE,
};
use vstd::prelude::*;

verus! {

/// How a play on the ledger ended.
#[derive(Clone, Copy, Debug, PartialEq, Eq)]
pub enum PlayResult {
    /// The user has no account yet.
    NoAccount,
    /// The balance does not cover the ante; nothing changed.
    InsufficientFunds { balance: i64 },
    /// The play took place and the new balance is committed.
    Played(SlotOutcome),
}

/// The row of a user in a table, if there is one.
pub open spec fn row_of(table: Map<u64, Account>, user_id: u64) -> Option<Account> {
    if table.contains_key(user_id) {
        Some(table[user_id])
    } else {
        None
    }
}

/// No row of the table has a negative balance.
pub open spec fn all_in_credit(table: Map<u64, Account>) -> bool {
    forall|user_id: u64| #[trigger] table.contains_key(user_id) ==> table[user_id].in_credit()
}

/// The table after a settlement is committed.
pub open spec fn committed(table: Map<u64, Account>, write: Option<StoreOp>) -> Map<
    u64,
    Account,
> {
    match write {
        Some(op) => applied(table, op),
        None => table,
    }
}

/// The table after the user's claim on `today` with the given reward.
pub open spec fn table_after_claim(
    table: Map<u64, Account>,
    user_id: u64,
    today: CalendarDate,
    reward: int,
) -> Map<u64, Account> {
    committed(table, claim_settled(row_of(table, user_id), user_id, today, reward).write)
}

/// What a play by the user comes to, given the tier and reels drawn.
pub open spec fn play_settled(
    table: Map<u64, Account>,
    user_id: u64,
    tier: Tier,
    reels: Reels,
) -> PlayResult {
    if !table.contains_key(user_id) {
        PlayResult::NoAccount
    } else if table[user_id].balance < ANTE {
        PlayResult::InsufficientFunds { balance: table[user_id].balance }
    } else {
        PlayResult::Played(settled(table[user_id].balance as int, tier, reels))
    }
}

/// The table after a play: the new balance in the user's row if the play
/// took place, else the table as it was.
pub open spec fn table_after_play(
    table: Map<u64, Account>,
    user_id: u64,
    result: PlayResult,
) -> Map<u64, Account> {
    match result {
        PlayResult::Played(outcome) => applied(
            table,
            StoreOp::UpdateBalance { user_id, balance: outcome.new_balance },
        ),
        _ => table,
    }
}

impl Ledger {
    /// The user's claim on `today` with a reward that is already drawn.
    pub fn claim_daily_with(&mut self, user_id: u64, today: CalendarDate, reward: i64) -> (outcome:
        ClaimOutcome)
        requires
            SMALLEST_REWARD <= reward <= LARGEST_REWARD,
            claim_has_room(row_of(old(self)@, user_id), today, reward as int),
        ensures
            outcome == claim_settled(
                row_of(old(self)@, user_id),
                user_id,
                today,
                reward as int,
            ).outcome,
            final(self)@ == table_after_claim(old(self)@, user_id, today, reward as int),
    {
        let existing = self.find(user_id);
        let settlement = settle_claim(existing, user_id, today, reward);
        self.commit(settlement.write);
        settlement.outcome
    }

    /// The user's claim on `today`: at most one claim per user and day is
    /// granted, and a granted one adds a reward from 1 to 15.
    pub fn claim_daily(&mut self, user_id: u64, today: CalendarDate) -> (outcome: ClaimOutcome)
        requires
            claim_has_room(row_of(old(self)@, user_id), today, LARGEST_REWARD as int),
        ensures
            exists|reward: int|
                SMALLEST_REWARD <= reward <= LARGEST_REWARD && outcome == (#[trigger] claim_settled(
                    row_of(old(self)@, user_id),
                    user_id,
                    today,
                    reward,
                )).outcome && final(self)@ == table_after_claim(
                    old(self)@,
                    user_id,
                    today,
                    reward,
                ),
    {
        let existing = self.find(user_id);
        let settlement = claim_daily(existing, user_id, today);
        self.commit(settlement.write);
        settlement.outcome
    }

    /// The user's balance, or `None` if the user has no account yet. An
    /// account with no nuggets has `Some(0)`.
    pub fn balance(&self, user_id: u64) -> (balance: Option<i64>)
        ensures
            balance == match row_of(self@, user_id) {
                Some(account) => Some(account.balance),
                None => None::<i64>,
            },
    {
        match self.find(user_id) {
            Some(account) => Some(account.balance),
            None => None,
        }
    }

    /// The user's play with tier and reels that are already drawn.
    pub fn play_slots_with(&mut self, user_id: u64, tier: Tier, reels: Reels) -> (result:
        PlayResult)
        requires
            old(self)@.contains_key(user_id) ==> spin_has_room(
                old(self)@[user_id].balance as int,
                tier,
                reels,
            ),
        ensures
            result == play_settled(old(self)@, user_id, tier, reels),
            final(self)@ == table_after_play(old(self)@, user_id, result),
    {
        match self.find(user_id) {
            None => PlayResult::NoAccount,
            Some(account) => match settle_spin(account.balance, tier, reels) {
                Err(refusal) => PlayResult::InsufficientFunds { balance: refusal.balance },
                Ok(outcome) => {
                    self.apply(StoreOp::UpdateBalance { user_id, balance: outcome.new_balance });
                    PlayResult::Played(outcome)
                },
            },
        }
    }

    /// The user's play: refused without an account or below the ante, with
    /// the ledger unchanged; otherwise played, settled and committed.
    pub fn play_slots(&mut self, user_id: u64) -> (result: PlayResult)
        requires
            old(self)@.contains_key(user_id) ==> old(self)@[user_id].balance
                <= HIGHEST_PLAYABLE_BALANCE,
        ensures
            result is NoAccount <==> !old(self)@.contains_key(user_id),
            result is InsufficientFunds <==> old(self)@.contains_key(user_id) && old(
                self,
            )@[user_id].balance < ANTE,
            result matches PlayResult::InsufficientFunds { balance } ==> balance == old(
                self,
            )@[user_id].balance,
            result matches PlayResult::Played(outcome) ==> outcome.settles(
                old(self)@[user_id].balance as int,
            ) && outcome.new_balance >= 0,
            final(self)@ == table_after_play(old(self)@, user_id, result),
    {
        match self.find(user_id) {
            None => PlayResult::NoAccount,
            Some(account) => match play_slots(account.balance) {
                Err(refusal) => PlayResult::InsufficientFunds { balance: refusal.balance },
                Ok(outcome) => {
                    self.apply(StoreOp::UpdateBalance { user_id, balance: outcome.new_balance });
                    PlayResult::Played(outcome)
                },
            },
        }
    }

    /// Commits the write of a settlement, if it has one.
    pub fn commit(&mut self, write: Option<StoreOp>)
        ensures
            final(self)@ == committed(old(self)@, write),
    {
        match write {
            Some(op) => {
                self.apply(op);
            },
            None => {},
        }
    }
}

/// On one calendar day a user's second claim is refused and changes
/// nothing, whatever the first claim did and whatever rewards are drawn.
pub proof fn second_claim_on_a_day_is_refused(
    table: Map<u64, Account>,
    user_id: u64,
    today: CalendarDate,
    first_reward: int,
    second_reward: int,
)
    requires
        is_keyed(table),
    ensures
        ({
            let after_first = table_after_claim(table, user_id, today, first_reward);
            let second = claim_settled(
                row_of(after_first, user_id),
                user_id,
                today,
                second_reward,
            );
            &&& after_first.contains_key(user_id)
            &&& second.outcome == ClaimOutcome::AlreadyClaimed {
                balance: after_first[user_id].balance,
            }
            &&& second.write is None
            &&& table_after_claim(after_first, user_id, today, second_reward) == after_first
        }),
{
}

/// A granted claim adds the reward: a first claim opens the account with
/// the reward alone, a later one adds it to the balance; either way the
/// amount reported is the reward, the row afterwards holds the new balance
/// and `today` as its claim date, and no other row changes.
pub proof fn granted_claim_adds_reward(
    table: Map<u64, Account>,
    user_id: u64,
    today: CalendarDate,
    reward: int,
)
    requires
        is_keyed(table),
        SMALLEST_REWARD <= reward <= LARGEST_REWARD,
        claim_has_room(row_of(table, user_id), today, reward),
        !claimed_today(table, user_id, today),
    ensures
        ({
            let outcome = claim_settled(row_of(table, user_id), user_id, today, reward).outcome;
            let after = table_after_claim(table, user_id, today, reward);
            let before = if table.contains_key(user_id) {
                table[user_id].balance as int
            } else {
                0
            };
            &&& !outcome.already_claimed()
            &&& outcome is FirstBonus <==> !table.contains_key(user_id)
            &&& outcome.amount() == reward
            &&& outcome.new_balance() == before + reward
            &&& after.contains_key(user_id)
            &&& after[user_id] == (Account {
                user_id,
                balance: (before + reward) as i64,
                last_claim_date: Some(today),
            })
            &&& forall|other: u64|
                other != user_id ==> row_of(after, other) == row_of(table, other)
        }),
{
}

/// The user's row shows a claim made on `today`.
pub open spec fn claimed_today(table: Map<u64, Account>, user_id: u64, today: CalendarDate) -> bool {
    table.contains_key(user_id) && table[user_id].last_claim_date == Some(today)
}

/// A claim on a later day is granted again: once the calendar day differs
/// from the day of the last claim, the reward is added to the balance that
/// the earlier claim left.
pub proof fn claim_on_another_day_is_granted(
    table: Map<u64, Account>,
    user_id: u64,
    first_day: CalendarDate,
    next_day: CalendarDate,
    first_reward: int,
    next_reward: int,
)
    requires
        is_keyed(table),
        first_day != next_day,
        SMALLEST_REWARD <= first_reward <= LARGEST_REWARD,
        SMALLEST_REWARD <= next_reward <= LARGEST_REWARD,
        claim_has_room(row_of(table, user_id), first_day, first_reward),
        claim_has_room(
            row_of(table_after_claim(table, user_id, first_day, first_reward), user_id),
            next_day,
            next_reward,
        ),
    ensures
        ({
            let after_first = table_after_claim(table, user_id, first_day, first_reward);
            let next = claim_settled(
                row_of(after_first, user_id),
                user_id,
                next_day,
                next_reward,
            ).outcome;
            &&& after_first.contains_key(user_id)
            &&& next == ClaimOutcome::Claimed {
                amount: next_reward as i64,
                new_balance: (after_first[user_id].balance + next_reward) as i64,
            }
            &&& next.new_balance() == after_first[user_id].balance + next_reward
        }),
{
}

/// No claim drives a balance below zero.
pub proof fn claim_keeps_credit(
    table: Map<u64, Account>,
    user_id: u64,
    today: CalendarDate,
    reward: int,
)
    requires
        is_keyed(table),
        all_in_credit(table),
        SMALLEST_REWARD <= reward <= LARGEST_REWARD,
        claim_has_room(row_of(table, user_id), today, reward),
    ensures
        all_in_credit(table_after_claim(table, user_id, today, reward)),
{
}

/// No play drives a balance below zero, and a play that is refused changes
/// nothing: whatever tier and reels are drawn, a balance below the ante
/// stays as it is, and a balance of at least the ante ends at no less than
/// zero.
pub proof fn play_keeps_credit(table: Map<u64, Account>, user_id: u64, tier: Tier, reels: Reels)
    requires
        is_keyed(table),
        all_in_credit(table),
        table.contains_key(user_id) ==> spin_has_room(table[user_id].balance as int, tier, reels),
    ensures
        ({
            let result = play_settled(table, user_id, tier, reels);
            let after = table_after_play(table, user_id, result);
            &&& all_in_credit(after)
            &&& !(result is Played) ==> after == table
            &&& result is Played <==> table.contains_key(user_id) && table[user_id].balance >= ANTE
            &&& result matches PlayResult::Played(outcome) ==> after[user_id].balance
                == table[user_id].balance - ANTE + outcome.payout
        }),
{
}

/// The ante alone decides whether a play takes place, at every balance and
/// whatever is drawn: without an account there is no play, below five
/// nuggets the play is refused with the balance named, and from five
/// nuggets on it always takes place. A play that does not take place leaves
/// the table as it was.
pub proof fn ante_decides_the_play(
    table: Map<u64, Account>,
    user_id: u64,
    tier: Tier,
    reels: Reels,
)
    ensures
        ({
            let result = play_settled(table, user_id, tier, reels);
            &&& result is NoAccount <==> !table.contains_key(user_id)
            &&& result is InsufficientFunds <==> table.contains_key(user_id)
                && table[user_id].balance < 5
            &&& result is Played <==> table.contains_key(user_id) && table[user_id].balance >= 5
            &&& result matches PlayResult::InsufficientFunds { balance } ==> balance
                == table[user_id].balance
            &&& !(result is Played) ==> table_after_play(table, user_id, result) == table
        }),
{
}

/// The table after the user's plays with the given draws, made one after
/// the other: each play reads the balance that the one before it wrote.
pub open spec fn table_after_plays(
    table: Map<u64, Account>,
    user_id: u64,
    draws: Seq<(Tier, Reels)>,
) -> Map<u64, Account>
    decreases draws.len(),
{
    if draws.len() == 0 {
        table
    } else {
        let before = table_after_plays(table, user_id, draws.drop_last());
        table_after_play(
            before,
            user_id,
            play_settled(before, user_id, draws.last().0, draws.last().1),
        )
    }
}

/// Every payout in a row of plays has room in the balance that it meets.
pub open spec fn plays_have_room(
    table: Map<u64, Account>,
    user_id: u64,
    draws: Seq<(Tier, Reels)>,
) -> bool
    decreases draws.len(),
{
    draws.len() == 0 || {
        let before = table_after_plays(table, user_id, draws.drop_last());
        &&& plays_have_room(table, user_id, draws.drop_last())
        &&& before.contains_key(user_id) ==> spin_has_room(
            before[user_id].balance as int,
            draws.last().0,
            draws.last().1,
        )
    }
}

/// However many plays one user makes in a row and whatever is drawn, no
/// balance is ever below zero, every row stays under its own user id, and
/// no other user's row changes. Plays that reach the ledger one at a time
/// come to such a row, in the order in which they reach it.
pub proof fn plays_in_a_row_keep_credit(
    table: Map<u64, Account>,
    user_id: u64,
    draws: Seq<(Tier, Reels)>,
)
    requires
        is_keyed(table),
        all_in_credit(table),
        plays_have_room(table, user_id, draws),
    ensures
        is_keyed(table_after_plays(table, user_id, draws)),
        all_in_credit(table_after_plays(table, user_id, draws)),
        forall|other: u64|
            other != user_id ==> row_of(table_after_plays(table, user_id, draws), other) == row_of(
                table,
                other,
            ),
    decreases draws.len(),
{
    if draws.len() > 0 {
        plays_in_a_row_keep_credit(table, user_id, draws.drop_last());
        let before = table_after_plays(table, user_id, draws.drop_last());
        play_keeps_credit(before, user_id, draws.last().0, draws.last().1);
    }
}

} // verus!
