//! The hero record and the rules by which it changes.

use vstd::prelude::*;
use crate::error::Error;
use crate::leveling::get_required_xp;
use crate::leveling::level_growth;
use crate::leveling::lemma_required_xp_fits;
use crate::leveling::luck_growth;
use crate::leveling::required_xp;
use crate::leveling::strength_growth;
use crate::leveling::wisdom_growth;
use crate::leveling::MAX_LEVEL;
use crate::quests::calculate_variance;
use crate::quests::entropy;
use crate::quests::generate_random;
use crate::quests::get_base_xp;
use crate::quests::get_quest_difficulty;
use crate::quests::quest_bonus;
use crate::quests::quest_message;
use crate::quests::quest_succeeds;
use crate::quests::quest_xp;
use crate::quests::variance;
use crate::quests::MAX_QUEST_ID;
use crate::quests::QUEST_COOLDOWN_BLOCKS;
use crate::tags::Arcana;
use crate::tags::Planet;

verus! {

/// Longest name a hero can bear, in bytes.
pub const MAX_NAME_LENGTH: usize = 32;

/// A hero: identity, tags, progress and name.
#[derive(Debug, PartialEq, Eq)]
pub struct Hero {
    /// Unique id, assigned at creation and never reused.
    pub id: u64,
    pub planet: Planet,
    pub arcana: Arcana,
    pub level: u32,
    pub xp: u64,
    pub strength: u32,
    pub wisdom: u32,
    pub luck: u32,
    /// Quests attempted.
    pub quest_count: u32,
    /// Quests that succeeded.
    pub total_quests_completed: u32,
    /// Height of the block of the last attempt, or of creation.
    pub last_quest_block: u64,
    pub creation_timestamp: u64,
    pub name: Vec<u8>,
}

/// What a quest attempt yielded.
#[derive(Debug, PartialEq, Eq)]
pub struct QuestReward {
    pub xp_gained: u64,
    /// Added to (strength, wisdom, luck).
    pub bonus_stats: (u32, u32, u32),
    pub success: bool,
    pub message: String,
}

/// A hero as a mathematical record: unbounded numbers, and the name as a
/// sequence of bytes.
pub struct HeroView {
    pub id: nat,
    pub planet: Planet,
    pub arcana: Arcana,
    pub level: nat,
    pub xp: nat,
    pub strength: nat,
    pub wisdom: nat,
    pub luck: nat,
    pub quest_count: nat,
    pub total_quests_completed: nat,
    pub last_quest_block: nat,
    pub creation_timestamp: nat,
    pub name: Seq<u8>,
}

impl View for Hero {
    type V = HeroView;

    open spec fn view(&self) -> HeroView {
        HeroView {
            id: self.id as nat,
            planet: self.planet,
            arcana: self.arcana,
            level: self.level as nat,
            xp: self.xp as nat,
            strength: self.strength as nat,
            wisdom: self.wisdom as nat,
            luck: self.luck as nat,
            quest_count: self.quest_count as nat,
            total_quests_completed: self.total_quests_completed as nat,
            last_quest_block: self.last_quest_block as nat,
            creation_timestamp: self.creation_timestamp as nat,
            name: self.name@,
        }
    }
}

impl Clone for Hero {
    fn clone(&self) -> (copy: Self)
        ensures
            copy@ == self@,
    {
        Hero {
            id: self.id,
            planet: self.planet,
            arcana: self.arcana,
            level: self.level,
            xp: self.xp,
            strength: self.strength,
            wisdom: self.wisdom,
            luck: self.luck,
            quest_count: self.quest_count,
            total_quests_completed: self.total_quests_completed,
            last_quest_block: self.last_quest_block,
            creation_timestamp: self.creation_timestamp,
            name: self.name.clone(),
        }
    }
}

impl Clone for QuestReward {
    fn clone(&self) -> (copy: Self)
        ensures
            copy == *self,
    {
        QuestReward {
            xp_gained: self.xp_gained,
            bonus_stats: self.bonus_stats,
            success: self.success,
            message: self.message.clone(),
        }
    }
}

impl HeroView {
    /// Every number is small enough for the field that stores it.
    pub open spec fn fits(self) -> bool {
        &&& self.id <= u64::MAX
        &&& self.level <= u32::MAX
        &&& self.xp <= u64::MAX
        &&& self.strength <= u32::MAX
        &&& self.wisdom <= u32::MAX
        &&& self.luck <= u32::MAX
        &&& self.quest_count <= u32::MAX
        &&& self.total_quests_completed <= u32::MAX
        &&& self.last_quest_block <= u64::MAX
        &&& self.creation_timestamp <= u64::MAX
    }

    /// What holds of every hero a ledger stores: the id is positive, the
    /// level lies between 1 and `MAX_LEVEL`, no more quests succeeded than
    /// were attempted, and the name has an acceptable length.
    pub open spec fn wf(self) -> bool {
        &&& self.id >= 1
        &&& 1 <= self.level <= MAX_LEVEL
        &&& self.total_quests_completed <= self.quest_count
        &&& name_ok(self.name)
    }

    /// The hero as it is created.
    pub open spec fn summoned(
        id: nat,
        planet: Planet,
        arcana: Arcana,
        name: Seq<u8>,
        block: nat,
        timestamp: nat,
    ) -> HeroView {
        let base = planet.stat_modifier();
        let bonus = arcana.base_bonus();
        HeroView {
            id,
            planet,
            arcana,
            level: 1,
            xp: 0,
            strength: (base.0 + bonus + variance(id as int, 1)) as nat,
            wisdom: (base.1 + bonus + variance(id as int, 2)) as nat,
            luck: (base.2 + bonus + variance(id as int, 3)) as nat,
            quest_count: 0,
            total_quests_completed: 0,
            last_quest_block: block,
            creation_timestamp: timestamp,
            name,
        }
    }

    /// Sum of the three statistics.
    pub open spec fn power(self) -> nat {
        self.strength + self.wisdom + self.luck
    }

    /// Whether the cooldown since the last attempt has passed at `block`.
    pub open spec fn cooled_down(self, block: nat) -> bool {
        block >= self.last_quest_block + QUEST_COOLDOWN_BLOCKS
    }

    /// Whether an attempt at `quest_id` at height `block` succeeds.
    pub open spec fn succeeds(self, quest_id: nat, block: nat) -> bool {
        quest_succeeds(self.power() as int, quest_id as int, entropy(self.id as int, block as int))
    }

    /// Experience an attempt at `quest_id` at height `block` awards.
    pub open spec fn xp_from(self, quest_id: nat, block: nat) -> nat {
        quest_xp(quest_id as int, self.luck as int, self.succeeds(quest_id, block)) as nat
    }

    /// The hero after an attempt at `quest_id` at height `block`. Experience,
    /// the count of attempts and the cooldown anchor change in any case; the
    /// statistics and the count of successes only on success.
    pub open spec fn after_quest(self, quest_id: nat, block: nat) -> HeroView {
        let won = self.succeeds(quest_id, block);
        let bonus = quest_bonus(quest_id as int, won);
        HeroView {
            xp: self.xp + self.xp_from(quest_id, block),
            strength: (self.strength + bonus.0) as nat,
            wisdom: (self.wisdom + bonus.1) as nat,
            luck: (self.luck + bonus.2) as nat,
            quest_count: self.quest_count + 1,
            total_quests_completed: if won {
                self.total_quests_completed + 1
            } else {
                self.total_quests_completed
            },
            last_quest_block: block,
            ..self
        }
    }

    /// Whether the hero may advance: it is below `MAX_LEVEL` and holds the
    /// experience its level requires.
    pub open spec fn can_level_up(self) -> bool {
        self.level < MAX_LEVEL && self.xp >= required_xp(self.level as int)
    }

    /// The hero one level higher: the required experience is spent and the
    /// statistics grow by what the new level grants.
    pub open spec fn after_level_up(self) -> HeroView {
        let level = self.level + 1;
        HeroView {
            level,
            xp: (self.xp - required_xp(self.level as int)) as nat,
            strength: (self.strength + strength_growth(level as int)) as nat,
            wisdom: (self.wisdom + wisdom_growth(level as int)) as nat,
            luck: (self.luck + luck_growth(level as int)) as nat,
            ..self
        }
    }

    /// The hero under a new name.
    pub open spec fn renamed(self, name: Seq<u8>) -> HeroView {
        HeroView { name, ..self }
    }
}

/// A name is acceptable when it has between 1 and `MAX_NAME_LENGTH` bytes.
pub open spec fn name_ok(name: Seq<u8>) -> bool {
    1 <= name.len() <= MAX_NAME_LENGTH
}

/// Tells whether `name` has an acceptable length.
pub fn is_valid_name(name: &Vec<u8>) -> (ok: bool)
    ensures
        ok == name_ok(name@),
{
    name.len() > 0 && name.len() <= MAX_NAME_LENGTH
}

/// Resolves a quest attempt from the hero's statistics, the quest and the
/// entropy of the attempt.
pub fn resolve_quest(strength: u32, wisdom: u32, luck: u32, quest_id: u32, entropy: u64) -> (reward:
    QuestReward)
    ensures
        reward.success == quest_succeeds(
            strength + wisdom + luck,
            quest_id as int,
            entropy as int,
        ),
        reward.xp_gained == quest_xp(quest_id as int, luck as int, reward.success),
        reward.bonus_stats.0 == quest_bonus(quest_id as int, reward.success).0,
        reward.bonus_stats.1 == quest_bonus(quest_id as int, reward.success).1,
        reward.bonus_stats.2 == quest_bonus(quest_id as int, reward.success).2,
        reward.message@ == quest_message(reward.success),
{
    let hero_power: u128 = strength as u128 + wisdom as u128 + luck as u128;
    let success_threshold: u128 = get_quest_difficulty(quest_id) as u128 * 10;
    let success = hero_power + entropy as u128 > success_threshold;
    let base: u64 = get_base_xp(quest_id);
    let luck_multiplier: u64 = 100 + luck as u64 * 2;
    assert(base * luck_multiplier <= 3500 * 8_589_934_690) by (nonlinear_arith)
        requires
            base <= 3500,
            luck_multiplier <= 8_589_934_690,
    ;
    let scaled: u64 = (base * luck_multiplier) / 100;
    if success {
        let id: u64 = quest_id as u64;
        QuestReward {
            xp_gained: (scaled * 150) / 100,
            bonus_stats: ((id / 3) as u32, ((id + 1) / 3) as u32, ((id + 2) / 3) as u32),
            success: true,
            message: "Quest completed successfully!".to_owned(),
        }
    } else {
        QuestReward {
            xp_gained: scaled / 2,
            bonus_stats: (0, 0, 0),
            success: false,
            message: "Quest failed, but gained experience.".to_owned(),
        }
    }
}

impl Hero {
    /// Creates the hero with id `id`: level 1, no experience, no quests, and
    /// statistics made of the planet's modifiers, the card's bonus and the
    /// variance of `id`. The cooldown starts at `block`.
    pub fn summon(
        id: u64,
        planet: Planet,
        arcana: Arcana,
        name: Vec<u8>,
        block: u64,
        timestamp: u64,
    ) -> (hero: Hero)
        ensures
            hero@ == HeroView::summoned(
                id as nat,
                planet,
                arcana,
                name@,
                block as nat,
                timestamp as nat,
            ),
            hero.name == name,
            id >= 1 && name_ok(name@) ==> hero@.wf(),
    {
        let planet_mods = planet.get_stat_modifier();
        let arcana_bonus = arcana.get_base_bonus();
        Hero {
            id,
            planet,
            arcana,
            level: 1,
            xp: 0,
            strength: planet_mods.0 + arcana_bonus + calculate_variance(id, 1),
            wisdom: planet_mods.1 + arcana_bonus + calculate_variance(id, 2),
            luck: planet_mods.2 + arcana_bonus + calculate_variance(id, 3),
            quest_count: 0,
            total_quests_completed: 0,
            last_quest_block: block,
            creation_timestamp: timestamp,
            name,
        }
    }

    /// Tells whether the cooldown has passed at height `block`.
    pub fn can_quest(&self, block: u64) -> (ready: bool)
        ensures
            ready == self@.cooled_down(block as nat),
    {
        block >= QUEST_COOLDOWN_BLOCKS && block - QUEST_COOLDOWN_BLOCKS >= self.last_quest_block
    }

    /// Tells whether the record can hold the result of an attempt at
    /// `quest_id` at height `block`.
    pub fn has_room_for_quest(&self, quest_id: u32, block: u64) -> (room: bool)
        ensures
            room == self@.after_quest(quest_id as nat, block as nat).fits(),
    {
        let reward = resolve_quest(
            self.strength,
            self.wisdom,
            self.luck,
            quest_id,
            generate_random(self.id, block),
        );
        reward.xp_gained <= u64::MAX - self.xp && self.quest_count < u32::MAX
            && reward.bonus_stats.0 <= u32::MAX - self.strength && reward.bonus_stats.1 <= u32::MAX
            - self.wisdom && reward.bonus_stats.2 <= u32::MAX - self.luck && (!reward.success
            || self.total_quests_completed < u32::MAX)
    }

    /// Sends the hero on quest `quest_id` at height `block`.
    ///
    /// Rejected with `InvalidInput` if `quest_id` names no quest, and
    /// otherwise with `OnCooldown` if the cooldown has not passed. An
    /// accepted attempt always consumes the cooldown and counts as an
    /// attempt, whether it succeeds or not.
    pub fn quest(&mut self, quest_id: u32, block: u64) -> (result: Result<QuestReward, Error>)
        requires
            1 <= quest_id <= MAX_QUEST_ID && old(self)@.cooled_down(block as nat)
                ==> old(self)@.after_quest(quest_id as nat, block as nat).fits(),
        ensures
            !(1 <= quest_id <= MAX_QUEST_ID) ==> result == Err::<QuestReward, Error>(
                Error::InvalidInput,
            ),
            1 <= quest_id <= MAX_QUEST_ID && !old(self)@.cooled_down(block as nat) ==> result
                == Err::<QuestReward, Error>(Error::OnCooldown),
            1 <= quest_id <= MAX_QUEST_ID && old(self)@.cooled_down(block as nat)
                ==> result is Ok,
            result is Err ==> *final(self) == *old(self),
            result matches Ok(reward) ==> {
                &&& final(self)@ == old(self)@.after_quest(quest_id as nat, block as nat)
                &&& reward.success == old(self)@.succeeds(quest_id as nat, block as nat)
                &&& reward.xp_gained == old(self)@.xp_from(quest_id as nat, block as nat)
                &&& reward.bonus_stats.0 == quest_bonus(quest_id as int, reward.success).0
                &&& reward.bonus_stats.1 == quest_bonus(quest_id as int, reward.success).1
                &&& reward.bonus_stats.2 == quest_bonus(quest_id as int, reward.success).2
                &&& reward.message@ == quest_message(reward.success)
                &&& old(self)@.wf() ==> final(self)@.wf()
            },
    {
        if quest_id < 1 || quest_id > MAX_QUEST_ID {
            return Err(Error::InvalidInput);
        }
        if !self.can_quest(block) {
            return Err(Error::OnCooldown);
        }
        let reward = resolve_quest(
            self.strength,
            self.wisdom,
            self.luck,
            quest_id,
            generate_random(self.id, block),
        );
        if reward.success {
            self.strength = self.strength + reward.bonus_stats.0;
            self.wisdom = self.wisdom + reward.bonus_stats.1;
            self.luck = self.luck + reward.bonus_stats.2;
            self.total_quests_completed = self.total_quests_completed + 1;
        }
        self.xp = self.xp + reward.xp_gained;
        self.quest_count = self.quest_count + 1;
        self.last_quest_block = block;
        Ok(reward)
    }

    /// Tells whether the hero may advance: it is below `MAX_LEVEL` and holds
    /// the experience its level requires.
    pub fn can_level_up(&self) -> (ready: bool)
        ensures
            ready == self@.can_level_up(),
    {
        if self.level >= MAX_LEVEL {
            return false;
        }
        proof {
            lemma_required_xp_fits(self.level as int);
        }
        self.xp >= get_required_xp(self.level)
    }

    /// Tells whether the record can hold the statistics of the next level.
    pub fn has_room_for_level_up(&self) -> (room: bool)
        ensures
            room == (self@.level < u32::MAX && self.strength + strength_growth(self.level + 1)
                <= u32::MAX && self.wisdom + wisdom_growth(self.level + 1) <= u32::MAX
                && self.luck + luck_growth(self.level + 1) <= u32::MAX),
            self@.can_level_up() ==> room == self@.after_level_up().fits(),
    {
        if self.level == u32::MAX {
            return false;
        }
        let growth = level_growth(self.level + 1);
        growth.0 <= u32::MAX - self.strength && growth.1 <= u32::MAX - self.wisdom && growth.2
            <= u32::MAX - self.luck
    }

    /// Advances the hero by one level.
    ///
    /// Rejected with `InsufficientResource` if the hero is at `MAX_LEVEL` or
    /// holds less experience than its level requires.
    pub fn level_up(&mut self) -> (result: Result<(), Error>)
        requires
            old(self)@.can_level_up() ==> old(self)@.after_level_up().fits(),
        ensures
            result is Ok <==> old(self)@.can_level_up(),
            result is Err ==> result == Err::<(), Error>(Error::InsufficientResource)
                && *final(self) == *old(self),
            result is Ok ==> final(self)@ == old(self)@.after_level_up() && (old(self)@.wf()
                ==> final(self)@.wf()),
    {
        if !self.can_level_up() {
            return Err(Error::InsufficientResource);
        }
        proof {
            lemma_required_xp_fits(self.level as int);
        }
        self.xp = self.xp - get_required_xp(self.level);
        self.level = self.level + 1;
        let growth = level_growth(self.level);
        self.strength = self.strength + growth.0;
        self.wisdom = self.wisdom + growth.1;
        self.luck = self.luck + growth.2;
        Ok(())
    }

    /// Gives the hero a new name.
    ///
    /// Rejected with `InvalidInput` unless the name has between 1 and
    /// `MAX_NAME_LENGTH` bytes.
    pub fn rename(&mut self, new_name: Vec<u8>) -> (result: Result<(), Error>)
        ensures
            result is Ok <==> name_ok(new_name@),
            result is Err ==> result == Err::<(), Error>(Error::InvalidInput) && *final(self)
                == *old(self),
            result is Ok ==> final(self)@ == old(self)@.renamed(new_name@) && final(self).name
                == new_name && (old(self)@.wf() ==> final(self)@.wf()),
    {
        if !is_valid_name(&new_name) {
            return Err(Error::InvalidInput);
        }
        self.name = new_name;
        Ok(())
    }
}

} // verus!
