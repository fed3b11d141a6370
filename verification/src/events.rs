//! What the ledger reports of each change it accepts.

use vstd::prelude::*;
use crate::address::Address;
use crate::tags::Arcana;
use crate::tags::Planet;

verus! {

/// A record of one accepted operation.
#[derive(Debug, PartialEq, Eq)]
pub enum Event {
    HeroSummoned { owner: Address, hero_id: u64, planet: Planet, arcana: Arcana },
    QuestCompleted { hero_id: u64, quest_id: u32, xp_gained: u64, success: bool },
    LevelUp { hero_id: u64, new_level: u32 },
    HeroRenamed { hero_id: u64, new_name: Vec<u8> },
}

/// An event as a mathematical value.
pub enum EventView {
    HeroSummoned { owner: Address, hero_id: nat, planet: Planet, arcana: Arcana },
    QuestCompleted { hero_id: nat, quest_id: nat, xp_gained: nat, success: bool },
    LevelUp { hero_id: nat, new_level: nat },
    HeroRenamed { hero_id: nat, new_name: Seq<u8> },
}

impl View for Event {
    type V = EventView;

    open spec fn view(&self) -> EventView {
        match *self {
            Event::HeroSummoned { owner, hero_id, planet, arcana } => EventView::HeroSummoned {
                owner,
                hero_id: hero_id as nat,
                planet,
                arcana,
            },
            Event::QuestCompleted {
                hero_id,
                quest_id,
                xp_gained,
                success,
            } => EventView::QuestCompleted {
                hero_id: hero_id as nat,
                quest_id: quest_id as nat,
                xp_gained: xp_gained as nat,
                success,
            },
            Event::LevelUp { hero_id, new_level } => EventView::LevelUp {
                hero_id: hero_id as nat,
                new_level: new_level as nat,
            },
            Event::HeroRenamed { hero_id, new_name } => EventView::HeroRenamed {
                hero_id: hero_id as nat,
                new_name: new_name@,
            },
        }
    }
}

impl Clone for Event {
    fn clone(&self) -> (copy: Self)
        ensures
            copy@ == self@,
    {
        match self {
            Event::HeroSummoned { owner, hero_id, planet, arcana } => Event::HeroSummoned {
                owner: *owner,
                hero_id: *hero_id,
                planet: *planet,
                arcana: *arcana,
            },
            Event::QuestCompleted { hero_id, quest_id, xp_gained, success } => {
                Event::QuestCompleted {
                    hero_id: *hero_id,
                    quest_id: *quest_id,
                    xp_gained: *xp_gained,
                    success: *success,
                }
            },
            Event::LevelUp { hero_id, new_level } => Event::LevelUp {
                hero_id: *hero_id,
                new_level: *new_level,
            },
            Event::HeroRenamed { hero_id, new_name } => Event::HeroRenamed {
                hero_id: *hero_id,
                new_name: new_name.clone(),
            },
        }
    }
}

} // verus!
