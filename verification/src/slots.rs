//! The slot machine: a fixed ante, three payout tiers decided by one roll
//! out of a hundred, and five weighted symbols.

use crate::chance::{choose_one, choose_several, is_selection_of, roll_between, shuffle_in_place};
use vstd::prelude::*;

verus! {

/// What one play costs.
pub const ANTE: i64 = 5;

/// What the break-even tier pays: the ante back.
pub const BREAK_EVEN_PAYOUT: i64 = 5;

/// The highest payout there is (three gems).
pub const TOP_PAYOUT: i64 = 250;

/// The highest balance from which a play cannot overflow the ledger's
/// 64-bit balance.
pub const HIGHEST_PLAYABLE_BALANCE: i64 = 0x7fff_ffff_ffff_ffff - 245;

/// A symbol on a reel.
#[derive(Clone, Copy, Debug, PartialEq, Eq, Structural)]
pub enum Symbol {
    Cherry,
    Orange,
    Bell,
    Clover,
    Gem,
}

impl Symbol {
    /// How many of the thirty places on the jackpot strip show this symbol.
    pub open spec fn spec_weight(self) -> nat {
        match self {
            Symbol::Cherry => 10,
            Symbol::Orange => 8,
            Symbol::Bell => 6,
            Symbol::Clover => 4,
            Symbol::Gem => 2,
        }
    }

    /// What three of this symbol pay.
    pub open spec fn spec_jackpot_value(self) -> int {
        match self {
            Symbol::Cherry => 10,
            Symbol::Orange => 25,
            Symbol::Bell => 40,
            Symbol::Clover => 75,
            Symbol::Gem => 250,
        }
    }

    pub fn weight(self) -> (weight: usize)
        ensures
            weight == self.spec_weight(),
    {
        match self {
            Symbol::Cherry => 10,
            Symbol::Orange => 8,
            Symbol::Bell => 6,
            Symbol::Clover => 4,
            Symbol::Gem => 2,
        }
    }

    pub fn jackpot_value(self) -> (value: i64)
        ensures
            value == self.spec_jackpot_value(),
    {
        match self {
            Symbol::Cherry => 10,
            Symbol::Orange => 25,
            Symbol::Bell => 40,
            Symbol::Clover => 75,
            Symbol::Gem => 250,
        }
    }

    /// The emoji that shows the symbol.
    pub fn glyph(self) -> (glyph: &'static str)
        ensures
            glyph@ == spec_glyph(self),
    {
        match self {
            Symbol::Cherry => "🍒",
            Symbol::Orange => "🍊",
            Symbol::Bell => "🔔",
            Symbol::Clover => "🍀",
            Symbol::Gem => "💎",
        }
    }
}

/// The emoji of each symbol, as text.
pub open spec fn spec_glyph(symbol: Symbol) -> Seq<char> {
    match symbol {
        Symbol::Cherry => "🍒"@,
        Symbol::Orange => "🍊"@,
        Symbol::Bell => "🔔"@,
        Symbol::Clover => "🍀"@,
        Symbol::Gem => "💎"@,
    }
}

/// The five symbols in table order.
pub open spec fn spec_symbol_table() -> Seq<Symbol> {
    seq![Symbol::Cherry, Symbol::Orange, Symbol::Bell, Symbol::Clover, Symbol::Gem]
}

pub fn symbol_table() -> (table: Vec<Symbol>)
    ensures
        table@ == spec_symbol_table(),
{
    let table = vec![Symbol::Cherry, Symbol::Orange, Symbol::Bell, Symbol::Clover, Symbol::Gem];
    assert(table@ =~= spec_symbol_table());
    table
}

/// The payout tier of a play.
#[derive(Clone, Copy, Debug, PartialEq, Eq, Structural)]
pub enum Tier {
    Jackpot,
    BreakEven,
    Loss,
}

/// The tier that a roll from 1 to 100 selects: 1 to 5 the jackpot, 6 to 20
/// break-even, 21 to 100 a loss.
pub open spec fn tier_for(roll: int) -> Tier {
    if roll <= 5 {
        Tier::Jackpot
    } else if roll <= 20 {
        Tier::BreakEven
    } else {
        Tier::Loss
    }
}

pub fn tier_of_roll(roll: i64) -> (tier: Tier)
    requires
        1 <= roll <= 100,
    ensures
        tier == tier_for(roll as int),
{
    if roll <= 5 {
        Tier::Jackpot
    } else if roll <= 20 {
        Tier::BreakEven
    } else {
        Tier::Loss
    }
}

/// What the three reels show, left to right.
#[derive(Clone, Copy, Debug, PartialEq, Eq, Structural)]
pub struct Reels {
    pub left: Symbol,
    pub middle: Symbol,
    pub right: Symbol,
}

impl Reels {
    /// All three reels show one symbol.
    pub open spec fn all_alike(self) -> bool {
        self.left == self.middle && self.middle == self.right
    }

    /// Two reels show one symbol and the third shows another.
    pub open spec fn pair_and_odd(self) -> bool {
        ||| self.left == self.middle && self.middle != self.right
        ||| self.left == self.right && self.right != self.middle
        ||| self.middle == self.right && self.right != self.left
    }

    /// The reels are a picture that the tier can produce.
    pub open spec fn fits(self, tier: Tier) -> bool {
        match tier {
            Tier::Jackpot => self.all_alike(),
            Tier::BreakEven => self.pair_and_odd(),
            Tier::Loss => true,
        }
    }

    /// The reels as a sequence, left to right.
    pub open spec fn view(self) -> Seq<Symbol> {
        seq![self.left, self.middle, self.right]
    }
}

/// What a tier pays on given reels: the symbol's jackpot value, the ante
/// back, or nothing.
pub open spec fn payout_for(tier: Tier, reels: Reels) -> int {
    match tier {
        Tier::Jackpot => reels.left.spec_jackpot_value(),
        Tier::BreakEven => BREAK_EVEN_PAYOUT as int,
        Tier::Loss => 0,
    }
}

/// One finished play.
#[derive(Clone, Copy, Debug, PartialEq, Eq, Structural)]
pub struct SlotOutcome {
    pub reels: Reels,
    pub tier: Tier,
    pub payout: i64,
    pub new_balance: i64,
}

impl SlotOutcome {
    /// The outcome is a correct play from `balance`: the reels fit the tier,
    /// the payout is the tier's, and the new balance is the old one less the
    /// ante plus the payout.
    pub open spec fn settles(self, balance: int) -> bool {
        &&& self.reels.fits(self.tier)
        &&& self.payout == payout_for(self.tier, self.reels)
        &&& self.new_balance == balance - ANTE + self.payout
    }
}

/// A play was refused because the balance does not cover the ante.
#[derive(Clone, Copy, Debug, PartialEq, Eq, Structural)]
pub struct InsufficientFunds {
    pub balance: i64,
}

/// The outcome of a play from `balance` with the given tier and reels.
pub open spec fn settled(balance: int, tier: Tier, reels: Reels) -> SlotOutcome {
    SlotOutcome {
        reels,
        tier,
        payout: payout_for(tier, reels) as i64,
        new_balance: (balance - ANTE + payout_for(tier, reels)) as i64,
    }
}

/// The payout has room: where the play takes place, the balance less the
/// ante plus the payout fits the ledger's 64-bit balance. A play that is
/// refused always has room.
pub open spec fn spin_has_room(balance: int, tier: Tier, reels: Reels) -> bool {
    balance >= ANTE ==> balance - ANTE + payout_for(tier, reels) <= 0x7fff_ffff_ffff_ffff
}

/// Tells whether the payout of a play has room in the balance.
pub fn has_room_for_spin(balance: i64, tier: Tier, reels: Reels) -> (room: bool)
    ensures
        room == spin_has_room(balance as int, tier, reels),
{
    if balance < ANTE {
        return true;
    }
    let payout: i64 = match tier {
        Tier::Jackpot => reels.left.jackpot_value(),
        Tier::BreakEven => BREAK_EVEN_PAYOUT,
        Tier::Loss => 0,
    };
    balance - ANTE <= i64::MAX - payout
}

/// Settles a play whose tier and reels are already drawn: refuses it if the
/// balance is below the ante, else charges the ante and pays the tier.
pub fn settle_spin(balance: i64, tier: Tier, reels: Reels) -> (result: Result<
    SlotOutcome,
    InsufficientFunds,
>)
    requires
        spin_has_room(balance as int, tier, reels),
    ensures
        balance < ANTE ==> result == Err::<SlotOutcome, InsufficientFunds>(
            InsufficientFunds { balance },
        ),
        balance >= ANTE ==> result == Ok::<SlotOutcome, InsufficientFunds>(
            settled(balance as int, tier, reels),
        ),
        result matches Ok(outcome) ==> outcome.new_balance >= 0,
        result matches Ok(outcome) ==> (reels.fits(tier) ==> outcome.settles(balance as int)),
{
    if balance < ANTE {
        return Err(InsufficientFunds { balance });
    }
    let payout: i64 = match tier {
        Tier::Jackpot => reels.left.jackpot_value(),
        Tier::BreakEven => BREAK_EVEN_PAYOUT,
        Tier::Loss => 0,
    };
    Ok(SlotOutcome { reels, tier, payout, new_balance: (balance - ANTE) + payout })
}

/// The jackpot picture: the drawn symbol on all three reels.
pub fn jackpot_reels(symbol: Symbol) -> (reels: Reels)
    ensures
        reels == (Reels { left: symbol, middle: symbol, right: symbol }),
{
    Reels { left: symbol, middle: symbol, right: symbol }
}

/// Reads three reels off a strip of three symbols.
pub fn reels_from_strip(strip: &Vec<Symbol>) -> (reels: Reels)
    requires
        strip@.len() == 3,
    ensures
        reels@ == strip@,
{
    let reels = Reels { left: strip[0], middle: strip[1], right: strip[2] };
    assert(reels@ =~= strip@);
    reels
}

/// How many places the jackpot strip has: the sum of the weights.
pub const STRIP_LENGTH: usize = 30;

/// What the jackpot strip shows at a place: ten cherries, then eight
/// oranges, six bells, four clovers and two gems.
pub open spec fn strip_symbol_at(place: int) -> Symbol {
    if place < 10 {
        Symbol::Cherry
    } else if place < 18 {
        Symbol::Orange
    } else if place < 24 {
        Symbol::Bell
    } else if place < 28 {
        Symbol::Clover
    } else {
        Symbol::Gem
    }
}

/// The strip from which the jackpot symbol is drawn uniformly, so that each
/// symbol comes with a chance proportional to its weight.
pub open spec fn spec_weighted_strip() -> Seq<Symbol> {
    Seq::new(STRIP_LENGTH as nat, |place: int| strip_symbol_at(place))
}

/// The place at which the run of the `index`-th table symbol begins.
pub open spec fn run_start(index: int) -> int {
    if index <= 0 {
        0
    } else if index == 1 {
        10
    } else if index == 2 {
        18
    } else if index == 3 {
        24
    } else if index == 4 {
        28
    } else {
        30
    }
}

/// Lays out the jackpot strip: for each symbol of the table in turn, as
/// many copies as its weight.
pub fn weighted_strip() -> (strip: Vec<Symbol>)
    ensures
        strip@ == spec_weighted_strip(),
{
    let table = symbol_table();
    let mut strip: Vec<Symbol> = Vec::new();
    let mut index: usize = 0;
    while index < table.len()
        invariant
            table@ == spec_symbol_table(),
            index <= 5,
            strip@ =~= spec_weighted_strip().take(run_start(index as int)),
        decreases 5 - index,
    {
        let symbol = table[index];
        let weight: usize = symbol.weight();
        let mut copies: usize = 0;
        while copies < weight
            invariant
                table@ == spec_symbol_table(),
                index < 5,
                symbol == table@[index as int],
                weight == symbol.spec_weight(),
                copies <= weight,
                strip@ =~= spec_weighted_strip().take(run_start(index as int) + copies),
            decreases weight - copies,
        {
            assert(spec_weighted_strip()[run_start(index as int) + copies] == symbol);
            strip.push(symbol);
            copies += 1;
        }
        index += 1;
    }
    assert(strip@ =~= spec_weighted_strip());
    strip
}

/// A strip of two of one symbol and one of another, before it is shuffled.
pub fn pair_strip(pair: Symbol, odd: Symbol) -> (strip: Vec<Symbol>)
    ensures
        strip@ == seq![pair, pair, odd],
{
    let strip = vec![pair, pair, odd];
    assert(strip@ =~= seq![pair, pair, odd]);
    strip
}

/// Two items picked from different places of the symbol table differ.
proof fn lemma_picked_symbols_differ(picked: Seq<Symbol>)
    requires
        picked.len() == 2,
        is_selection_of(picked, spec_symbol_table()),
    ensures
        picked[0] != picked[1],
{
    let at = choose|at: Seq<int>|
        #![trigger at.len()]
        at.len() == picked.len() && at.no_duplicates() && forall|k: int|
            0 <= k < picked.len() ==> 0 <= #[trigger] at[k] < spec_symbol_table().len()
                && picked[k] == spec_symbol_table()[at[k]];
    assert(at[0] != at[1]);
    assert(picked[0] == spec_symbol_table()[at[0]]);
    assert(picked[1] == spec_symbol_table()[at[1]]);
}

/// However three places holding two of one symbol and one of another are
/// rearranged, two reels agree and the third differs.
proof fn lemma_shuffled_pair_strip(before: Seq<Symbol>, after: Seq<Symbol>)
    requires
        before.len() == 3,
        before[0] == before[1],
        before[1] != before[2],
        after.to_multiset() == before.to_multiset(),
    ensures
        after.len() == 3,
        (Reels { left: after[0], middle: after[1], right: after[2] }).pair_and_odd(),
{
    broadcast use vstd::seq_lib::group_to_multiset_ensures;

    let pair = before[0];
    let odd = before[2];
    assert(before =~= Seq::<Symbol>::empty().push(pair).push(pair).push(odd));
    assert(after.len() == 3) by {
        assert(before.to_multiset().len() == before.len());
        assert(after.to_multiset().len() == after.len());
    }
    assert(after =~= Seq::<Symbol>::empty().push(after[0]).push(after[1]).push(after[2]));
    let bag = before.to_multiset();
    assert(bag.count(odd) == 1);
    assert(bag.count(pair) == 2);
    assert(after.to_multiset().count(odd) == 1);
    assert(after.to_multiset().count(pair) == 2);
}

/// Draws the jackpot picture: one symbol from the weighted strip, on all
/// three reels.
pub fn draw_jackpot() -> (reels: Reels)
    ensures
        reels.all_alike(),
{
    let strip = weighted_strip();
    let pick = choose_one(&strip);
    jackpot_reels(*pick.unwrap())
}

/// Draws the break-even picture: two different symbols, two reels of the
/// first and one of the second, in shuffled order.
pub fn draw_break_even() -> (reels: Reels)
    ensures
        reels.pair_and_odd(),
{
    let table = symbol_table();
    let picked = choose_several(&table, 2);
    proof {
        lemma_picked_symbols_differ(picked@);
    }
    let mut strip = pair_strip(picked[0], picked[1]);
    let ghost before = strip@;
    shuffle_in_place(&mut strip);
    proof {
        lemma_shuffled_pair_strip(before, strip@);
    }
    reels_from_strip(&strip)
}

/// Draws the picture of a loss: each reel on its own, uniformly from the
/// five symbols, so that reels may repeat.
pub fn draw_loss() -> (reels: Reels)
    ensures
        reels.fits(Tier::Loss),
{
    let table = symbol_table();
    let left = *choose_one(&table).unwrap();
    let middle = *choose_one(&table).unwrap();
    let right = *choose_one(&table).unwrap();
    Reels { left, middle, right }
}

/// Draws the reels of a tier.
pub fn draw_reels(tier: Tier) -> (reels: Reels)
    ensures
        reels.fits(tier),
{
    match tier {
        Tier::Jackpot => draw_jackpot(),
        Tier::BreakEven => draw_break_even(),
        Tier::Loss => draw_loss(),
    }
}

/// One play from `balance`: refused below the ante, with nothing drawn;
/// otherwise a roll from 1 to 100 selects the tier, the reels are drawn for
/// it and the play is settled. What will be drawn is not known beforehand,
/// so the balance must have room for the highest payout.
pub fn play_slots(balance: i64) -> (result: Result<SlotOutcome, InsufficientFunds>)
    requires
        balance <= HIGHEST_PLAYABLE_BALANCE,
    ensures
        result is Err <==> balance < ANTE,
        result matches Err(refusal) ==> refusal.balance == balance,
        result matches Ok(outcome) ==> outcome.settles(balance as int) && outcome.new_balance
            >= 0,
{
    if balance < ANTE {
        return Err(InsufficientFunds { balance });
    }
    let roll: i64 = roll_between(1, 100);
    let tier = tier_of_roll(roll);
    let reels = draw_reels(tier);
    settle_spin(balance, tier, reels)
}

/// Every settled play pays what its tier fixes: a jackpot the value of the
/// symbol that all three reels show, which is one of 10, 25, 40, 75 and 250;
/// break-even exactly the ante; a loss exactly nothing.
pub proof fn payouts_are_fixed(outcome: SlotOutcome, balance: int)
    requires
        outcome.settles(balance),
    ensures
        outcome.tier == Tier::Jackpot ==> outcome.reels.all_alike() && outcome.payout
            == outcome.reels.left.spec_jackpot_value() && (outcome.payout == 10 || outcome.payout
            == 25 || outcome.payout == 40 || outcome.payout == 75 || outcome.payout == 250),
        outcome.tier == Tier::BreakEven ==> outcome.payout == 5,
        outcome.tier == Tier::Loss ==> outcome.payout == 0,
        0 <= outcome.payout <= TOP_PAYOUT,
        outcome.new_balance == balance - 5 + outcome.payout,
        balance >= ANTE ==> outcome.new_balance >= 0,
{
}

/// The places of the jackpot strip that show `symbol`.
pub open spec fn strip_places_of(symbol: Symbol) -> Set<int> {
    Set::new(|place: int| 0 <= place < STRIP_LENGTH && spec_weighted_strip()[place] == symbol)
}

/// The jackpot strip has thirty places, and each symbol fills as many of
/// them as its weight: a uniform draw from the strip gives each symbol with
/// a chance of weight over thirty.
pub proof fn strip_holds_each_symbol_by_weight(symbol: Symbol)
    ensures
        spec_weighted_strip().len() == 30,
        strip_places_of(symbol).finite(),
        strip_places_of(symbol).len() == symbol.spec_weight(),
{
    let first = match symbol {
        Symbol::Cherry => 0int,
        Symbol::Orange => 10,
        Symbol::Bell => 18,
        Symbol::Clover => 24,
        Symbol::Gem => 28,
    };
    let end = first + symbol.spec_weight();
    vstd::set_lib::lemma_int_range(first, end);
    assert(strip_places_of(symbol) =~= vstd::set_lib::set_int_range(first, end));
}

/// Of the hundred rolls, five select the jackpot, fifteen break-even and
/// eighty a loss.
pub proof fn rolls_per_tier()
    ensures
        rolls_of(Tier::Jackpot).len() == 5,
        rolls_of(Tier::BreakEven).len() == 15,
        rolls_of(Tier::Loss).len() == 80,
{
    vstd::set_lib::lemma_int_range(1, 6);
    vstd::set_lib::lemma_int_range(6, 21);
    vstd::set_lib::lemma_int_range(21, 101);
    assert(rolls_of(Tier::Jackpot) =~= vstd::set_lib::set_int_range(1, 6));
    assert(rolls_of(Tier::BreakEven) =~= vstd::set_lib::set_int_range(6, 21));
    assert(rolls_of(Tier::Loss) =~= vstd::set_lib::set_int_range(21, 101));
}

/// The rolls from 1 to 100 that select `tier`.
pub open spec fn rolls_of(tier: Tier) -> Set<int> {
    Set::new(|roll: int| 1 <= roll <= 100 && tier_for(roll) == tier)
}

/// What the jackpot pays, summed over the first `places` places of the
/// strip.
pub open spec fn jackpot_sum(places: nat) -> int
    decreases places,
{
    if places == 0 {
        0
    } else {
        jackpot_sum((places - 1) as nat) + strip_symbol_at(places - 1).spec_jackpot_value()
    }
}

/// What a roll pays, summed over all thirty equally likely places of the
/// strip. Below the jackpot tier the place makes no difference.
pub open spec fn payout_sum_of_roll(roll: int) -> int {
    match tier_for(roll) {
        Tier::Jackpot => jackpot_sum(STRIP_LENGTH as nat),
        Tier::BreakEven => STRIP_LENGTH * BREAK_EVEN_PAYOUT,
        Tier::Loss => 0,
    }
}

/// What is paid, summed over the first `rolls` rolls and all places.
pub open spec fn payout_sum(rolls: nat) -> int
    decreases rolls,
{
    if rolls == 0 {
        0
    } else {
        payout_sum((rolls - 1) as nat) + payout_sum_of_roll(rolls as int)
    }
}

proof fn lemma_jackpot_sum()
    ensures
        jackpot_sum(30) == 1340,
{
    reveal_with_fuel(jackpot_sum, 31);
}

proof fn lemma_payout_sum_steps(rolls: nat)
    requires
        rolls <= 100,
    ensures
        payout_sum(rolls) == if rolls <= 5 {
            (rolls * 1340) as int
        } else if rolls <= 20 {
            6700 + (rolls - 5) * 150
        } else {
            8950int
        },
    decreases rolls,
{
    lemma_jackpot_sum();
    if rolls > 0 {
        lemma_payout_sum_steps((rolls - 1) as nat);
    }
}

/// The house keeps an edge: over the hundred rolls and thirty strip places,
/// all equally likely, the machine pays 8950 nuggets against 15000 nuggets
/// of antes, that is less than three nuggets a play for an ante of five.
pub proof fn house_keeps_an_edge()
    ensures
        payout_sum(100) == 8950,
        payout_sum(100) < 100 * STRIP_LENGTH * ANTE,
{
    lemma_payout_sum_steps(100);
}

} // verus!
