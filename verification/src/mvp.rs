//! A reduced ledger: every hero starts with the same statistics and name,
//! every quest awards the same experience, and every level costs the same.

use vstd::prelude::*;
use crate::address::Address;
use crate::error::Error;
use crate::ownership::ids_held_by;

verus! {

/// Least payment for summoning a hero in the reduced ledger: a twentieth of
/// a currency unit of 10^18 parts.
pub const MVP_MIN_SUMMON_PAYMENT: u128 = 50_000_000_000_000_000;

/// Experience every quest awards.
pub const QUEST_XP_REWARD: u64 = 100;

/// Experience every level costs.
pub const LEVELUP_XP_COST: u64 = 100;

/// A hero of the reduced ledger.
#[derive(Debug, PartialEq, Eq)]
pub struct HeroMVP {
    pub id: u64,
    pub level: u32,
    pub xp: u64,
    pub strength: u32,
    pub wisdom: u32,
    pub luck: u32,
    pub name: Vec<u8>,
}

/// A hero of the reduced ledger as a mathematical record.
pub struct HeroMVPView {
    pub id: nat,
    pub level: nat,
    pub xp: nat,
    pub strength: nat,
    pub wisdom: nat,
    pub luck: nat,
    pub name: Seq<u8>,
}

/// A record of one accepted operation of the reduced ledger.
#[derive(Clone, Copy, Debug, PartialEq, Eq)]
pub enum EventMVP {
    HeroSummoned { owner: Address, hero_id: u64 },
    QuestCompleted { hero_id: u64, xp_gained: u64 },
    LevelUp { hero_id: u64, new_level: u32 },
}

impl View for HeroMVP {
    type V = HeroMVPView;

    open spec fn view(&self) -> HeroMVPView {
        HeroMVPView {
            id: self.id as nat,
            level: self.level as nat,
            xp: self.xp as nat,
            strength: self.strength as nat,
            wisdom: self.wisdom as nat,
            luck: self.luck as nat,
            name: self.name@,
        }
    }
}

impl Clone for HeroMVP {
    fn clone(&self) -> (copy: Self)
        ensures
            copy@ == self@,
    {
        HeroMVP {
            id: self.id,
            level: self.level,
            xp: self.xp,
            strength: self.strength,
            wisdom: self.wisdom,
            luck: self.luck,
            name: self.name.clone(),
        }
    }
}

/// The name every hero of the reduced ledger bears: the bytes of "Hero".
pub open spec fn default_name() -> Seq<u8> {
    seq![72u8, 101u8, 114u8, 111u8]
}

impl HeroMVPView {
    /// Every number is small enough for the field that stores it.
    pub open spec fn fits(self) -> bool {
        &&& self.id <= u64::MAX
        &&& self.level <= u32::MAX
        &&& self.xp <= u64::MAX
        &&& self.strength <= u32::MAX
        &&& self.wisdom <= u32::MAX
        &&& self.luck <= u32::MAX
    }

    /// The hero as it is created: level 1, no experience, statistics
    /// (20, 15, 13).
    pub open spec fn summoned(id: nat) -> HeroMVPView {
        HeroMVPView {
            id,
            level: 1,
            xp: 0,
            strength: 20,
            wisdom: 15,
            luck: 13,
            name: default_name(),
        }
    }

    /// The hero after a quest.
    pub open spec fn after_quest(self) -> HeroMVPView {
        HeroMVPView { xp: self.xp + QUEST_XP_REWARD as nat, ..self }
    }

    /// The hero one level higher.
    pub open spec fn after_level_up(self) -> HeroMVPView {
        HeroMVPView {
            level: self.level + 1,
            xp: (self.xp - LEVELUP_XP_COST) as nat,
            strength: self.strength + 3,
            wisdom: self.wisdom + 2,
            luck: self.luck + 1,
            ..self
        }
    }
}

impl HeroMVP {
    /// Creates the hero with id `id`.
    pub fn summon(id: u64) -> (hero: HeroMVP)
        ensures
            hero@ == HeroMVPView::summoned(id as nat),
    {
        let mut name: Vec<u8> = Vec::new();
        name.push(72u8);
        name.push(101u8);
        name.push(114u8);
        name.push(111u8);
        assert(name@ =~= default_name());
        HeroMVP { id, level: 1, xp: 0, strength: 20, wisdom: 15, luck: 13, name }
    }

    /// Completes a quest: the hero gains `QUEST_XP_REWARD` experience.
    pub fn quest(&mut self)
        requires
            old(self).xp + QUEST_XP_REWARD <= u64::MAX,
        ensures
            final(self)@ == old(self)@.after_quest(),
    {
        self.xp = self.xp + QUEST_XP_REWARD;
    }

    /// Tells whether the record can hold the level and statistics of the
    /// next level.
    pub fn has_room_for_level_up(&self) -> (room: bool)
        ensures
            room == (self.level < u32::MAX && self.strength + 3 <= u32::MAX && self.wisdom + 2
                <= u32::MAX && self.luck + 1 <= u32::MAX),
            self.xp >= LEVELUP_XP_COST ==> room == self@.after_level_up().fits(),
    {
        self.level < u32::MAX && self.strength <= u32::MAX - 3 && self.wisdom <= u32::MAX - 2
            && self.luck < u32::MAX
    }

    /// Advances the hero by one level for `LEVELUP_XP_COST` experience.
    ///
    /// Rejected with `InsufficientResource` if the hero holds too little
    /// experience.
    pub fn level_up(&mut self) -> (result: Result<(), Error>)
        requires
            old(self).xp >= LEVELUP_XP_COST ==> old(self)@.after_level_up().fits(),
        ensures
            result is Ok <==> old(self).xp >= LEVELUP_XP_COST,
            result is Err ==> result == Err::<(), Error>(Error::InsufficientResource)
                && *final(self) == *old(self),
            result is Ok ==> final(self)@ == old(self)@.after_level_up(),
    {
        if self.xp < LEVELUP_XP_COST {
            return Err(Error::InsufficientResource);
        }
        self.xp = self.xp - LEVELUP_XP_COST;
        self.level = self.level + 1;
        self.strength = self.strength + 3;
        self.wisdom = self.wisdom + 2;
        self.luck = self.luck + 1;
        Ok(())
    }
}

/// Decides whether a summon paid with `payment` is accepted.
pub fn check_summon_mvp(payment: u128) -> (verdict: Result<(), Error>)
    ensures
        payment < MVP_MIN_SUMMON_PAYMENT ==> verdict == Err::<(), Error>(
            Error::InsufficientPayment,
        ),
        payment >= MVP_MIN_SUMMON_PAYMENT ==> verdict is Ok,
{
    if payment < MVP_MIN_SUMMON_PAYMENT {
        Err(Error::InsufficientPayment)
    } else {
        Ok(())
    }
}

/// The whole state of the reduced ledger.
pub struct LedgerMVPView {
    /// The heroes in the order of their ids, which start at 1.
    pub heroes: Seq<HeroMVPView>,
    /// For each hero, the account that summoned it.
    pub holders: Seq<Address>,
    /// Every event so far, oldest first.
    pub events: Seq<EventMVP>,
}

impl LedgerMVPView {
    pub open spec fn init() -> LedgerMVPView {
        LedgerMVPView { heroes: Seq::empty(), holders: Seq::empty(), events: Seq::empty() }
    }

    /// The id the next hero will get.
    pub open spec fn next_id(self) -> nat {
        self.heroes.len() + 1
    }

    pub open spec fn has_hero(self, id: nat) -> bool {
        1 <= id < self.next_id()
    }

    pub open spec fn hero(self, id: nat) -> HeroMVPView {
        self.heroes[id - 1]
    }

    /// Whether `who` holds the hero `id`.
    pub open spec fn holds(self, who: Address, id: nat) -> bool {
        self.has_hero(id) && self.holders[id - 1] == who
    }

    /// Every hero has a holder and carries the id of its position.
    pub open spec fn wf(self) -> bool {
        &&& self.holders.len() == self.heroes.len()
        &&& forall|i: int| 0 <= i < self.heroes.len() ==> (#[trigger] self.heroes[i]).id == i + 1
    }

    /// The ledger after `caller` summoned a hero.
    pub open spec fn after_summon(self, caller: Address) -> LedgerMVPView {
        LedgerMVPView {
            heroes: self.heroes.push(HeroMVPView::summoned(self.next_id())),
            holders: self.holders.push(caller),
            events: self.events.push(
                EventMVP::HeroSummoned { owner: caller, hero_id: self.next_id() as u64 },
            ),
        }
    }

    /// The ledger after hero `hero_id` completed a quest.
    pub open spec fn after_quest(self, hero_id: nat) -> LedgerMVPView {
        LedgerMVPView {
            heroes: self.heroes.update(hero_id - 1, self.hero(hero_id).after_quest()),
            events: self.events.push(
                EventMVP::QuestCompleted { hero_id: hero_id as u64, xp_gained: QUEST_XP_REWARD },
            ),
            ..self
        }
    }

    /// Why a level-up is rejected, if it is: first for the holder, then for
    /// the experience.
    pub open spec fn level_up_refusal(self, caller: Address, hero_id: nat) -> Option<Error> {
        if !self.holds(caller, hero_id) {
            Some(Error::NotOwner)
        } else if self.hero(hero_id).xp < LEVELUP_XP_COST {
            Some(Error::InsufficientResource)
        } else {
            None
        }
    }

    /// The ledger after hero `hero_id` advanced by one level.
    pub open spec fn after_level_up(self, hero_id: nat) -> LedgerMVPView {
        LedgerMVPView {
            heroes: self.heroes.update(hero_id - 1, self.hero(hero_id).after_level_up()),
            events: self.events.push(
                EventMVP::LevelUp {
                    hero_id: hero_id as u64,
                    new_level: (self.hero(hero_id).level + 1) as u32,
                },
            ),
            ..self
        }
    }
}

/// The reduced ledger.
pub struct CelestialHeroesMVPContract {
    hero_counter: u64,
    heroes: Vec<HeroMVP>,
    holders: Vec<Address>,
    events: Vec<EventMVP>,
}

impl View for CelestialHeroesMVPContract {
    type V = LedgerMVPView;

    closed spec fn view(&self) -> LedgerMVPView {
        LedgerMVPView {
            heroes: Seq::new(self.heroes@.len(), |i: int| self.heroes@[i]@),
            holders: self.holders@,
            events: self.events@,
        }
    }
}

impl CelestialHeroesMVPContract {
    /// The stored state is consistent: the counter is one ahead of the
    /// number of heroes, and the ledger it stands for is well formed.
    pub closed spec fn wf(&self) -> bool {
        &&& self.hero_counter == self.heroes@.len() + 1
        &&& self@.wf()
    }

    /// A consistent ledger stands for a well-formed state whose numbers fit.
    pub proof fn lemma_wf(&self)
        requires
            self.wf(),
        ensures
            self@.wf(),
            self@.next_id() <= u64::MAX,
            forall|id: nat| self@.has_hero(id) ==> (#[trigger] self@.hero(id)).fits(),
    {
    }

    /// Creates an empty ledger. The first hero will get id 1.
    pub fn init() -> (ledger: Self)
        ensures
            ledger.wf(),
            ledger@ == LedgerMVPView::init(),
    {
        let ledger = CelestialHeroesMVPContract {
            hero_counter: 1,
            heroes: Vec::new(),
            holders: Vec::new(),
            events: Vec::new(),
        };
        assert(ledger@.heroes =~= Seq::<HeroMVPView>::empty());
        assert(ledger@.holders =~= Seq::<Address>::empty());
        assert(ledger@.events =~= Seq::<EventMVP>::empty());
        ledger
    }

    /// Finds the position of hero `hero_id`, if `who` holds it.
    fn position_held(&self, who: Address, hero_id: u64) -> (found: Option<usize>)
        requires
            self.wf(),
        ensures
            found is Some <==> self@.holds(who, hero_id as nat),
            found matches Some(i) ==> {
                &&& i == hero_id - 1
                &&& i < self.heroes@.len()
                &&& self.heroes@[i as int]@ == self@.hero(hero_id as nat)
            },
    {
        let count = self.heroes.len();
        if hero_id < 1 || hero_id >= self.hero_counter {
            return None;
        }
        assert(hero_id - 1 < count);
        let i = (hero_id - 1) as usize;
        if self.holders[i] == who {
            Some(i)
        } else {
            None
        }
    }

    /// Summons a hero for `caller`, who sent `payment` with the call.
    ///
    /// Rejected with `InsufficientPayment` if the payment is below
    /// `MVP_MIN_SUMMON_PAYMENT`. On success returns the id of the new hero,
    /// which is the value of the id counter before the call.
    pub fn summon_hero(&mut self, caller: Address, payment: u128) -> (result: Result<u64, Error>)
        requires
            old(self).wf(),
            payment >= MVP_MIN_SUMMON_PAYMENT ==> old(self)@.next_id() < u64::MAX,
        ensures
            final(self).wf(),
            payment < MVP_MIN_SUMMON_PAYMENT ==> result == Err::<u64, Error>(
                Error::InsufficientPayment,
            ) && final(self)@ == old(self)@,
            payment >= MVP_MIN_SUMMON_PAYMENT ==> result == Ok::<u64, Error>(
                old(self)@.next_id() as u64,
            ) && final(self)@ == old(self)@.after_summon(caller),
    {
        match check_summon_mvp(payment) {
            Err(e) => {
                return Err(e);
            },
            Ok(()) => {},
        }
        let hero_id = self.hero_counter;
        self.heroes.push(HeroMVP::summon(hero_id));
        self.holders.push(caller);
        self.hero_counter = self.hero_counter + 1;
        self.events.push(EventMVP::HeroSummoned { owner: caller, hero_id });
        proof {
            let after = old(self)@.after_summon(caller);
            assert(self@.heroes =~= after.heroes);
            assert(self@.holders =~= after.holders);
            assert(self@.events =~= after.events);
        }
        Ok(hero_id)
    }

    /// Completes a quest with hero `hero_id`, on behalf of `caller`. Every
    /// quest awards `QUEST_XP_REWARD` experience.
    ///
    /// Rejected with `NotOwner` if `caller` does not hold the hero.
    pub fn quest(&mut self, caller: Address, hero_id: u64) -> (result: Result<(), Error>)
        requires
            old(self).wf(),
            old(self)@.holds(caller, hero_id as nat) ==> old(self)@.hero(hero_id as nat).xp
                + QUEST_XP_REWARD <= u64::MAX,
        ensures
            final(self).wf(),
            !old(self)@.holds(caller, hero_id as nat) ==> result == Err::<(), Error>(
                Error::NotOwner,
            ) && final(self)@ == old(self)@,
            old(self)@.holds(caller, hero_id as nat) ==> result is Ok && final(self)@ == old(
                self,
            )@.after_quest(hero_id as nat),
    {
        let i = match self.position_held(caller, hero_id) {
            Some(i) => i,
            None => {
                return Err(Error::NotOwner);
            },
        };
        self.heroes[i].quest();
        self.events.push(EventMVP::QuestCompleted { hero_id, xp_gained: QUEST_XP_REWARD });
        proof {
            let after = old(self)@.after_quest(hero_id as nat);
            assert(self@.heroes =~= after.heroes);
            assert(self@.events =~= after.events);
        }
        Ok(())
    }

    /// Advances hero `hero_id` by one level for `LEVELUP_XP_COST` experience,
    /// on behalf of `caller`.
    ///
    /// Rejected with `NotOwner` if `caller` does not hold the hero, and
    /// otherwise with `InsufficientResource` if the hero holds too little
    /// experience.
    pub fn level_up(&mut self, caller: Address, hero_id: u64) -> (result: Result<(), Error>)
        requires
            old(self).wf(),
            old(self)@.level_up_refusal(caller, hero_id as nat) is None ==> old(self)@.hero(
                hero_id as nat,
            ).after_level_up().fits(),
        ensures
            final(self).wf(),
            match old(self)@.level_up_refusal(caller, hero_id as nat) {
                Some(e) => result == Err::<(), Error>(e) && final(self)@ == old(self)@,
                None => result is Ok && final(self)@ == old(self)@.after_level_up(hero_id as nat),
            },
    {
        let i = match self.position_held(caller, hero_id) {
            Some(i) => i,
            None => {
                return Err(Error::NotOwner);
            },
        };
        let outcome = self.heroes[i].level_up();
        match outcome {
            Err(e) => {
                assert(self@.heroes =~= old(self)@.heroes);
                Err(e)
            },
            Ok(()) => {
                let new_level = self.heroes[i].level;
                self.events.push(EventMVP::LevelUp { hero_id, new_level });
                proof {
                    let after = old(self)@.after_level_up(hero_id as nat);
                    assert(self@.heroes =~= after.heroes);
                    assert(self@.events =~= after.events);
                }
                Ok(())
            },
        }
    }

    /// Returns the hero `hero_id`, or `NotFound` if there is none.
    pub fn get_hero(&self, hero_id: u64) -> (result: Result<HeroMVP, Error>)
        requires
            self.wf(),
        ensures
            match result {
                Ok(hero) => self@.has_hero(hero_id as nat) && hero@ == self@.hero(hero_id as nat),
                Err(e) => !self@.has_hero(hero_id as nat) && e == Error::NotFound,
            },
    {
        let count = self.heroes.len();
        if hero_id < 1 || hero_id >= self.hero_counter {
            return Err(Error::NotFound);
        }
        assert(hero_id - 1 < count);
        Ok(self.heroes[(hero_id - 1) as usize].clone())
    }

    /// Returns the ids of the heroes `owner` holds, in increasing order.
    pub fn get_heroes_by_owner(&self, owner: Address) -> (ids: Vec<u64>)
        requires
            self.wf(),
        ensures
            forall|id: u64| ids@.contains(id) <==> self@.holds(owner, id as nat),
            forall|j: int, k: int| 0 <= j < k < ids@.len() ==> ids@[j] < ids@[k],
    {
        ids_held_by(&self.holders, owner)
    }

    /// Returns the number of heroes summoned so far.
    pub fn get_hero_count(&self) -> (count: u64)
        requires
            self.wf(),
        ensures
            count == self@.next_id() - 1,
    {
        self.hero_counter - 1
    }

    /// Returns every event so far, oldest first.
    pub fn get_events(&self) -> (events: &Vec<EventMVP>)
        ensures
            events@ == self@.events,
    {
        &self.events
    }
}

} // verus!
