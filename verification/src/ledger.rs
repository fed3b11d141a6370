//! The ledger as a mathematical value, and what each operation makes of it.
//!
//! Heroes are numbered from 1 in the order of their creation, so the hero
//! with id `k` stands at position `k - 1`, beside the account that holds it.
//! A hero never changes hands and is never deleted.

use vstd::prelude::*;
use crate::address::Address;
use crate::error::Error;
use crate::events::EventView;
use crate::hero::is_valid_name;
use crate::hero::name_ok;
use crate::hero::HeroView;
use crate::quests::MAX_QUEST_ID;
use crate::tags::Arcana;
use crate::tags::Planet;

verus! {

/// Least payment for summoning a hero: a tenth of a currency unit of
/// 10^18 parts.
pub const MIN_SUMMON_PAYMENT: u128 = 100_000_000_000_000_000;

/// Least payment for renaming a hero: a hundredth of a currency unit.
pub const MIN_RENAME_PAYMENT: u128 = 10_000_000_000_000_000;

/// The whole state of the ledger.
pub struct LedgerView {
    /// The account that may withdraw from the treasury.
    pub owner: Address,
    /// The heroes in the order of their ids.
    pub heroes: Seq<HeroView>,
    /// For each hero, the account that summoned it.
    pub holders: Seq<Address>,
    /// Payments collected and not yet withdrawn.
    pub treasury: nat,
    /// Every event so far, oldest first.
    pub events: Seq<EventView>,
}

impl LedgerView {
    /// The ledger before any operation: no heroes, an empty treasury.
    pub open spec fn init(owner: Address) -> LedgerView {
        LedgerView {
            owner,
            heroes: Seq::empty(),
            holders: Seq::empty(),
            treasury: 0,
            events: Seq::empty(),
        }
    }

    /// The id the next hero will get.
    pub open spec fn next_id(self) -> nat {
        self.heroes.len() + 1
    }

    /// A hero exists for exactly the ids from 1 up to, not including, `next_id`.
    pub open spec fn has_hero(self, id: nat) -> bool {
        1 <= id < self.next_id()
    }

    pub open spec fn hero(self, id: nat) -> HeroView {
        self.heroes[id - 1]
    }

    /// Whether `who` holds the hero `id`. Nobody holds a hero that does not
    /// exist.
    pub open spec fn holds(self, who: Address, id: nat) -> bool {
        self.has_hero(id) && self.holders[id - 1] == who
    }

    /// The ids of the heroes `who` holds.
    pub open spec fn heroes_of(self, who: Address) -> Set<nat> {
        Set::new(|id: nat| self.holds(who, id))
    }

    /// Every hero has a holder, carries the id of its position, and is well
    /// formed.
    pub open spec fn wf(self) -> bool {
        &&& self.holders.len() == self.heroes.len()
        &&& forall|i: int|
            0 <= i < self.heroes.len() ==> (#[trigger] self.heroes[i]).id == i + 1
                && self.heroes[i].wf()
    }

    /// Every number is small enough for the field that stores it.
    pub open spec fn fits(self) -> bool {
        &&& self.next_id() <= u64::MAX
        &&& self.treasury <= u128::MAX
        &&& forall|i: int| 0 <= i < self.heroes.len() ==> (#[trigger] self.heroes[i]).fits()
    }

    /// Why a summon is rejected, if it is: first for the payment, then for
    /// the name.
    pub open spec fn summon_refusal(payment: nat, name: Seq<u8>) -> Option<Error> {
        if payment < MIN_SUMMON_PAYMENT {
            Some(Error::InsufficientPayment)
        } else if !name_ok(name) {
            Some(Error::InvalidInput)
        } else {
            None
        }
    }

    /// Whether the counter and the treasury can take one more summon.
    pub open spec fn room_for_summon(self, payment: nat) -> bool {
        self.next_id() < u64::MAX && self.treasury + payment <= u128::MAX
    }

    /// The ledger after `caller` summoned a hero: the hero gets `next_id`,
    /// `caller` holds it, and the payment goes to the treasury.
    pub open spec fn after_summon(
        self,
        caller: Address,
        payment: nat,
        planet: Planet,
        arcana: Arcana,
        name: Seq<u8>,
        block: nat,
        timestamp: nat,
    ) -> LedgerView {
        LedgerView {
            heroes: self.heroes.push(
                HeroView::summoned(self.next_id(), planet, arcana, name, block, timestamp),
            ),
            holders: self.holders.push(caller),
            treasury: self.treasury + payment,
            events: self.events.push(
                EventView::HeroSummoned { owner: caller, hero_id: self.next_id(), planet, arcana },
            ),
            ..self
        }
    }

    /// Why a quest is rejected, if it is: first for the holder, then for the
    /// quest, then for the cooldown.
    pub open spec fn quest_refusal(
        self,
        caller: Address,
        hero_id: nat,
        quest_id: nat,
        block: nat,
    ) -> Option<Error> {
        if !self.holds(caller, hero_id) {
            Some(Error::NotOwner)
        } else if !(1 <= quest_id <= MAX_QUEST_ID) {
            Some(Error::InvalidInput)
        } else if !self.hero(hero_id).cooled_down(block) {
            Some(Error::OnCooldown)
        } else {
            None
        }
    }

    /// Whether the record of hero `hero_id` can hold the result of an attempt
    /// at `quest_id` at height `block`.
    pub open spec fn room_for_quest(self, hero_id: nat, quest_id: nat, block: nat) -> bool {
        self.hero(hero_id).after_quest(quest_id, block).fits()
    }

    /// The ledger after hero `hero_id` attempted `quest_id` at height `block`.
    pub open spec fn after_quest(self, hero_id: nat, quest_id: nat, block: nat) -> LedgerView {
        let hero = self.hero(hero_id);
        LedgerView {
            heroes: self.heroes.update(hero_id - 1, hero.after_quest(quest_id, block)),
            events: self.events.push(
                EventView::QuestCompleted {
                    hero_id,
                    quest_id,
                    xp_gained: hero.xp_from(quest_id, block),
                    success: hero.succeeds(quest_id, block),
                },
            ),
            ..self
        }
    }

    /// Why a level-up is rejected, if it is: first for the holder, then for
    /// the level and the experience.
    pub open spec fn level_up_refusal(self, caller: Address, hero_id: nat) -> Option<Error> {
        if !self.holds(caller, hero_id) {
            Some(Error::NotOwner)
        } else if !self.hero(hero_id).can_level_up() {
            Some(Error::InsufficientResource)
        } else {
            None
        }
    }

    /// Whether the record of hero `hero_id` can hold the statistics of its
    /// next level.
    pub open spec fn room_for_level_up(self, hero_id: nat) -> bool {
        self.hero(hero_id).after_level_up().fits()
    }

    /// The ledger after hero `hero_id` advanced by one level.
    pub open spec fn after_level_up(self, hero_id: nat) -> LedgerView {
        let hero = self.hero(hero_id);
        LedgerView {
            heroes: self.heroes.update(hero_id - 1, hero.after_level_up()),
            events: self.events.push(EventView::LevelUp { hero_id, new_level: hero.level + 1 }),
            ..self
        }
    }

    /// Why a rename is rejected, if it is: first for the payment, then for
    /// the name, then for the holder.
    pub open spec fn rename_refusal(
        self,
        caller: Address,
        payment: nat,
        hero_id: nat,
        name: Seq<u8>,
    ) -> Option<Error> {
        if payment < MIN_RENAME_PAYMENT {
            Some(Error::InsufficientPayment)
        } else if !name_ok(name) {
            Some(Error::InvalidInput)
        } else if !self.holds(caller, hero_id) {
            Some(Error::NotOwner)
        } else {
            None
        }
    }

    /// Whether the treasury can take one more payment.
    pub open spec fn room_for_payment(self, payment: nat) -> bool {
        self.treasury + payment <= u128::MAX
    }

    /// The ledger after hero `hero_id` was renamed for `payment`.
    pub open spec fn after_rename(self, payment: nat, hero_id: nat, name: Seq<u8>) -> LedgerView {
        LedgerView {
            heroes: self.heroes.update(hero_id - 1, self.hero(hero_id).renamed(name)),
            treasury: self.treasury + payment,
            events: self.events.push(EventView::HeroRenamed { hero_id, new_name: name }),
            ..self
        }
    }

    /// Why a withdrawal is rejected, if it is: first for the caller, then for
    /// the amount.
    pub open spec fn withdrawal_refusal(self, caller: Address, amount: nat) -> Option<Error> {
        if caller != self.owner {
            Some(Error::Unauthorized)
        } else if amount > self.treasury {
            Some(Error::InsufficientResource)
        } else {
            None
        }
    }

    /// The ledger after `amount` left the treasury.
    pub open spec fn after_withdrawal(self, amount: nat) -> LedgerView {
        LedgerView { treasury: (self.treasury - amount) as nat, ..self }
    }
}

/// Decides whether a summon paid with `payment` for a hero named `name` is
/// accepted.
pub fn check_summon(payment: u128, name: &Vec<u8>) -> (verdict: Result<(), Error>)
    ensures
        verdict == match LedgerView::summon_refusal(payment as nat, name@) {
            Some(e) => Err::<(), Error>(e),
            None => Ok::<(), Error>(()),
        },
{
    if payment < MIN_SUMMON_PAYMENT {
        return Err(Error::InsufficientPayment);
    }
    if !is_valid_name(name) {
        return Err(Error::InvalidInput);
    }
    Ok(())
}

/// Decides whether a rename to `name` paid with `payment` is accepted, as far
/// as payment and name go.
pub fn check_rename(payment: u128, name: &Vec<u8>) -> (verdict: Result<(), Error>)
    ensures
        payment < MIN_RENAME_PAYMENT ==> verdict == Err::<(), Error>(Error::InsufficientPayment),
        payment >= MIN_RENAME_PAYMENT && !name_ok(name@) ==> verdict == Err::<(), Error>(
            Error::InvalidInput,
        ),
        payment >= MIN_RENAME_PAYMENT && name_ok(name@) ==> verdict is Ok,
{
    if payment < MIN_RENAME_PAYMENT {
        return Err(Error::InsufficientPayment);
    }
    if !is_valid_name(name) {
        return Err(Error::InvalidInput);
    }
    Ok(())
}

/// Decides whether `caller` may withdraw `amount` from a treasury of
/// `balance` that `owner` controls, and returns the balance that remains.
pub fn check_withdrawal(caller: Address, owner: Address, balance: u128, amount: u128) -> (verdict:
    Result<u128, Error>)
    ensures
        caller != owner ==> verdict == Err::<u128, Error>(Error::Unauthorized),
        caller == owner && amount > balance ==> verdict == Err::<u128, Error>(
            Error::InsufficientResource,
        ),
        caller == owner && amount <= balance ==> verdict == Ok::<u128, Error>(
            (balance - amount) as u128,
        ),
{
    if !(caller == owner) {
        return Err(Error::Unauthorized);
    }
    if amount > balance {
        return Err(Error::InsufficientResource);
    }
    Ok(balance - amount)
}

} // verus!
