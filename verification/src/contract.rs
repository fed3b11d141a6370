//! The ledger itself: stored state and the operations on it.
//!
//! The host supplies with each call what the ledger cannot know: who calls,
//! what was paid, the height of the current block and the time. An operation
//! checks all its conditions before it changes anything, so a rejected call
//! leaves the ledger as it was.

use vstd::prelude::*;
use crate::address::Address;
use crate::error::Error;
use crate::events::Event;
use crate::events::EventView;
use crate::hero::Hero;
use crate::hero::HeroView;
use crate::hero::QuestReward;
use crate::ledger::check_rename;
use crate::ledger::check_summon;
use crate::ledger::check_withdrawal;
use crate::ledger::LedgerView;
use crate::ownership::ids_held_by;
use crate::quests::quest_bonus;
use crate::quests::quest_message;
use crate::tags::Arcana;
use crate::tags::Planet;

verus! {

/// The progression ledger.
pub struct CelestialHeroesContract {
    contract_owner: Address,
    hero_counter: u64,
    heroes: Vec<Hero>,
    holders: Vec<Address>,
    treasury_balance: u128,
    events: Vec<Event>,
}

/// Funds the host must move after an accepted withdrawal.
#[derive(Clone, Copy, Debug, PartialEq, Eq)]
pub struct Transfer {
    pub to: Address,
    pub amount: u128,
}

impl View for CelestialHeroesContract {
    type V = LedgerView;

    closed spec fn view(&self) -> LedgerView {
        LedgerView {
            owner: self.contract_owner,
            heroes: Seq::new(self.heroes@.len(), |i: int| self.heroes@[i]@),
            holders: self.holders@,
            treasury: self.treasury_balance as nat,
            events: Seq::new(self.events@.len(), |i: int| self.events@[i]@),
        }
    }
}

impl CelestialHeroesContract {
    /// The stored state is consistent: the counter is one ahead of the
    /// number of heroes, and the ledger it stands for is well formed.
    pub closed spec fn wf(&self) -> bool {
        &&& self.hero_counter == self.heroes@.len() + 1
        &&& self@.wf()
    }

    /// A consistent ledger stands for a well-formed state whose numbers fit.
    pub proof fn lemma_wf(&self)
        requires
            self.wf(),
        ensures
            self@.wf(),
            self@.fits(),
    {
    }

    /// Creates an empty ledger that `owner` controls. The first hero will get
    /// id 1.
    pub fn init(owner: Address) -> (ledger: Self)
        ensures
            ledger.wf(),
            ledger@ == LedgerView::init(owner),
    {
        let ledger = CelestialHeroesContract {
            contract_owner: owner,
            hero_counter: 1,
            heroes: Vec::new(),
            holders: Vec::new(),
            treasury_balance: 0,
            events: Vec::new(),
        };
        assert(ledger@.heroes =~= Seq::<HeroView>::empty());
        assert(ledger@.events =~= Seq::<EventView>::empty());
        assert(ledger@.holders =~= Seq::<Address>::empty());
        ledger
    }

    /// Finds the position of hero `hero_id`, if the hero exists.
    fn position(&self, hero_id: u64) -> (found: Option<usize>)
        requires
            self.wf(),
        ensures
            found is Some <==> self@.has_hero(hero_id as nat),
            found matches Some(i) ==> {
                &&& i == hero_id - 1
                &&& i < self.heroes@.len()
                &&& i < self.holders@.len()
                &&& self.heroes@[i as int]@ == self@.hero(hero_id as nat)
                &&& self.holders@[i as int] == self@.holders[hero_id - 1]
            },
    {
        let count = self.heroes.len();
        if hero_id < 1 || hero_id >= self.hero_counter {
            return None;
        }
        assert(hero_id - 1 < count);
        let i = (hero_id - 1) as usize;
        Some(i)
    }

    /// Returns the number of heroes summoned so far.
    pub fn get_hero_count(&self) -> (count: u64)
        requires
            self.wf(),
        ensures
            count == self@.next_id() - 1,
    {
        self.hero_counter - 1
    }

    /// Returns the balance of the treasury.
    pub fn get_treasury_balance(&self) -> (balance: u128)
        ensures
            balance == self@.treasury,
    {
        self.treasury_balance
    }

    /// Returns the account that may withdraw from the treasury.
    pub fn get_owner(&self) -> (owner: Address)
        ensures
            owner == self@.owner,
    {
        self.contract_owner
    }

    /// Returns every event so far, oldest first.
    pub fn get_events(&self) -> (events: &Vec<Event>)
        ensures
            events@.len() == self@.events.len(),
            forall|i: int| 0 <= i < events@.len() ==> (#[trigger] events@[i])@ == self@.events[i],
    {
        &self.events
    }

    /// Returns the hero `hero_id`, or `NotFound` if there is none.
    pub fn get_hero(&self, hero_id: u64) -> (result: Result<Hero, Error>)
        requires
            self.wf(),
        ensures
            match result {
                Ok(hero) => self@.has_hero(hero_id as nat) && hero@ == self@.hero(hero_id as nat),
                Err(e) => !self@.has_hero(hero_id as nat) && e == Error::NotFound,
            },
    {
        match self.position(hero_id) {
            Some(i) => Ok(self.heroes[i].clone()),
            None => Err(Error::NotFound),
        }
    }

    /// Tells whether hero `hero_id` exists and its cooldown has passed at
    /// height `block`.
    pub fn can_quest(&self, hero_id: u64, block: u64) -> (ready: bool)
        requires
            self.wf(),
        ensures
            ready == (self@.has_hero(hero_id as nat) && self@.hero(hero_id as nat).cooled_down(
                block as nat,
            )),
    {
        match self.position(hero_id) {
            Some(i) => self.heroes[i].can_quest(block),
            None => false,
        }
    }

    /// Tells whether `who` holds hero `hero_id`.
    pub fn is_holder(&self, who: Address, hero_id: u64) -> (held: bool)
        requires
            self.wf(),
        ensures
            held == self@.holds(who, hero_id as nat),
    {
        match self.position(hero_id) {
            Some(i) => self.holders[i] == who,
            None => false,
        }
    }

    /// Summons a hero for `caller`, who sent `payment` with the call.
    ///
    /// Rejected with `InsufficientPayment` if the payment is below
    /// `MIN_SUMMON_PAYMENT`, and otherwise with `InvalidInput` if the name is
    /// empty or longer than 32 bytes. On success returns the id of the new
    /// hero, which is the value of the id counter before the call.
    pub fn summon_hero(
        &mut self,
        caller: Address,
        payment: u128,
        block: u64,
        timestamp: u64,
        planet: Planet,
        arcana: Arcana,
        name: Vec<u8>,
    ) -> (result: Result<u64, Error>)
        requires
            old(self).wf(),
            LedgerView::summon_refusal(payment as nat, name@) is None
                ==> old(self)@.room_for_summon(payment as nat),
        ensures
            final(self).wf(),
            match LedgerView::summon_refusal(payment as nat, name@) {
                Some(e) => result == Err::<u64, Error>(e) && final(self)@ == old(self)@,
                None => {
                    &&& result == Ok::<u64, Error>(old(self)@.next_id() as u64)
                    &&& final(self)@ == old(self)@.after_summon(
                        caller,
                        payment as nat,
                        planet,
                        arcana,
                        name@,
                        block as nat,
                        timestamp as nat,
                    )
                    &&& final(self)@.next_id() == old(self)@.next_id() + 1
                },
            },
    {
        match check_summon(payment, &name) {
            Err(e) => {
                return Err(e);
            },
            Ok(()) => {},
        }
        let hero_id = self.hero_counter;
        let hero = Hero::summon(hero_id, planet, arcana, name, block, timestamp);
        self.heroes.push(hero);
        self.holders.push(caller);
        self.hero_counter = self.hero_counter + 1;
        self.treasury_balance = self.treasury_balance + payment;
        self.events.push(Event::HeroSummoned { owner: caller, hero_id, planet, arcana });
        proof {
            let after = old(self)@.after_summon(
                caller,
                payment as nat,
                planet,
                arcana,
                name@,
                block as nat,
                timestamp as nat,
            );
            assert(self@.heroes =~= after.heroes);
            assert(self@.holders =~= after.holders);
            assert(self@.events =~= after.events);
        }
        Ok(hero_id)
    }

    /// Sends hero `hero_id` on quest `quest_id` at height `block`, on behalf
    /// of `caller`.
    ///
    /// Rejected with `NotOwner` if `caller` does not hold the hero, otherwise
    /// with `InvalidInput` if `quest_id` names no quest, otherwise with
    /// `OnCooldown` if fewer than `QUEST_COOLDOWN_BLOCKS` blocks have passed
    /// since the hero's last attempt.
    pub fn quest(&mut self, caller: Address, block: u64, hero_id: u64, quest_id: u32) -> (result:
        Result<QuestReward, Error>)
        requires
            old(self).wf(),
            old(self)@.quest_refusal(caller, hero_id as nat, quest_id as nat, block as nat)
                is None ==> old(self)@.room_for_quest(
                hero_id as nat,
                quest_id as nat,
                block as nat,
            ),
        ensures
            final(self).wf(),
            match old(self)@.quest_refusal(caller, hero_id as nat, quest_id as nat, block as nat) {
                Some(e) => result == Err::<QuestReward, Error>(e) && final(self)@ == old(self)@,
                None => {
                    &&& final(self)@ == old(self)@.after_quest(
                        hero_id as nat,
                        quest_id as nat,
                        block as nat,
                    )
                    &&& result matches Ok(reward)
                    &&& reward.success == old(self)@.hero(hero_id as nat).succeeds(
                        quest_id as nat,
                        block as nat,
                    )
                    &&& reward.xp_gained == old(self)@.hero(hero_id as nat).xp_from(
                        quest_id as nat,
                        block as nat,
                    )
                    &&& reward.bonus_stats.0 == quest_bonus(quest_id as int, reward.success).0
                    &&& reward.bonus_stats.1 == quest_bonus(quest_id as int, reward.success).1
                    &&& reward.bonus_stats.2 == quest_bonus(quest_id as int, reward.success).2
                    &&& reward.message@ == quest_message(reward.success)
                },
            },
    {
        let i = match self.position(hero_id) {
            Some(i) => i,
            None => {
                return Err(Error::NotOwner);
            },
        };
        if !(self.holders[i] == caller) {
            return Err(Error::NotOwner);
        }
        let outcome = self.heroes[i].quest(quest_id, block);
        match outcome {
            Err(e) => {
                assert(self@.heroes =~= old(self)@.heroes);
                Err(e)
            },
            Ok(reward) => {
                self.events.push(
                    Event::QuestCompleted {
                        hero_id,
                        quest_id,
                        xp_gained: reward.xp_gained,
                        success: reward.success,
                    },
                );
                proof {
                    let after = old(self)@.after_quest(
                        hero_id as nat,
                        quest_id as nat,
                        block as nat,
                    );
                    assert(self@.heroes =~= after.heroes);
                    assert(self@.events =~= after.events);
                }
                Ok(reward)
            },
        }
    }

    /// Advances hero `hero_id` by one level, on behalf of `caller`.
    ///
    /// Rejected with `NotOwner` if `caller` does not hold the hero, and
    /// otherwise with `InsufficientResource` if the hero is at `MAX_LEVEL` or
    /// holds less experience than its level requires.
    pub fn level_up(&mut self, caller: Address, hero_id: u64) -> (result: Result<(), Error>)
        requires
            old(self).wf(),
            old(self)@.level_up_refusal(caller, hero_id as nat) is None
                ==> old(self)@.room_for_level_up(hero_id as nat),
        ensures
            final(self).wf(),
            match old(self)@.level_up_refusal(caller, hero_id as nat) {
                Some(e) => result == Err::<(), Error>(e) && final(self)@ == old(self)@,
                None => result is Ok && final(self)@ == old(self)@.after_level_up(hero_id as nat),
            },
    {
        let i = match self.position(hero_id) {
            Some(i) => i,
            None => {
                return Err(Error::NotOwner);
            },
        };
        if !(self.holders[i] == caller) {
            return Err(Error::NotOwner);
        }
        let outcome = self.heroes[i].level_up();
        match outcome {
            Err(e) => {
                assert(self@.heroes =~= old(self)@.heroes);
                Err(e)
            },
            Ok(()) => {
                let new_level = self.heroes[i].level;
                self.events.push(Event::LevelUp { hero_id, new_level });
                proof {
                    let after = old(self)@.after_level_up(hero_id as nat);
                    assert(self@.heroes =~= after.heroes);
                    assert(self@.events =~= after.events);
                }
                Ok(())
            },
        }
    }

    /// Renames hero `hero_id`, on behalf of `caller`, who sent `payment` with
    /// the call.
    ///
    /// Rejected with `InsufficientPayment` if the payment is below
    /// `MIN_RENAME_PAYMENT`, otherwise with `InvalidInput` if the name is
    /// empty or longer than 32 bytes, otherwise with `NotOwner` if `caller`
    /// does not hold the hero.
    pub fn rename_hero(
        &mut self,
        caller: Address,
        payment: u128,
        hero_id: u64,
        new_name: Vec<u8>,
    ) -> (result: Result<(), Error>)
        requires
            old(self).wf(),
            old(self)@.rename_refusal(caller, payment as nat, hero_id as nat, new_name@)
                is None ==> old(self)@.room_for_payment(payment as nat),
        ensures
            final(self).wf(),
            match old(self)@.rename_refusal(caller, payment as nat, hero_id as nat, new_name@) {
                Some(e) => result == Err::<(), Error>(e) && final(self)@ == old(self)@,
                None => result is Ok && final(self)@ == old(self)@.after_rename(
                    payment as nat,
                    hero_id as nat,
                    new_name@,
                ),
            },
    {
        match check_rename(payment, &new_name) {
            Err(e) => {
                return Err(e);
            },
            Ok(()) => {},
        }
        let i = match self.position(hero_id) {
            Some(i) => i,
            None => {
                return Err(Error::NotOwner);
            },
        };
        if !(self.holders[i] == caller) {
            return Err(Error::NotOwner);
        }
        let logged = new_name.clone();
        assert(logged@ =~= new_name@);
        let outcome = self.heroes[i].rename(new_name);
        self.treasury_balance = self.treasury_balance + payment;
        self.events.push(Event::HeroRenamed { hero_id, new_name: logged });
        proof {
            let after = old(self)@.after_rename(payment as nat, hero_id as nat, new_name@);
            assert(self@.heroes =~= after.heroes);
            assert(self@.events =~= after.events);
        }
        outcome
    }

    /// Withdraws `amount` from the treasury for the owner of the ledger.
    ///
    /// Rejected with `Unauthorized` if `caller` is not the owner, and
    /// otherwise with `InsufficientResource` if `amount` exceeds the balance.
    /// On success returns the transfer the host must make.
    pub fn withdraw_treasury(&mut self, caller: Address, amount: u128) -> (result: Result<
        Transfer,
        Error,
    >)
        requires
            old(self).wf(),
        ensures
            final(self).wf(),
            match old(self)@.withdrawal_refusal(caller, amount as nat) {
                Some(e) => result == Err::<Transfer, Error>(e) && final(self)@ == old(self)@,
                None => {
                    &&& result == Ok::<Transfer, Error>(
                        Transfer { to: old(self)@.owner, amount },
                    )
                    &&& final(self)@ == old(self)@.after_withdrawal(amount as nat)
                    &&& final(self)@.treasury == old(self)@.treasury - amount
                },
            },
    {
        match check_withdrawal(caller, self.contract_owner, self.treasury_balance, amount) {
            Err(e) => {
                return Err(e);
            },
            Ok(remaining) => {
                self.treasury_balance = remaining;
            },
        }
        assert(self@.heroes =~= old(self)@.heroes);
        assert(self@.events =~= old(self)@.events);
        Ok(Transfer { to: self.contract_owner, amount })
    }

    /// Returns the ids of the heroes `owner` holds, in increasing order.
    pub fn get_heroes_by_owner(&self, owner: Address) -> (ids: Vec<u64>)
        requires
            self.wf(),
        ensures
            forall|id: u64| ids@.contains(id) <==> self@.holds(owner, id as nat),
            forall|j: int, k: int| 0 <= j < k < ids@.len() ==> ids@[j] < ids@[k],
    {
        ids_held_by(&self.holders, owner)
    }
}

} // verus!
