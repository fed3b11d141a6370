//! Progression ledger for player-owned heroes: summoning, questing under a
//! cooldown, levelling against a fixed experience curve, and a treasury of
//! collected fees.
//!
//! Every operation is a function of the stored state and of the values the
//! host supplies with a call (caller, payment, block height, time); none
//! reads a clock or a source of chance. A rejected operation leaves the
//! state exactly as it was.
//!
//! Records hold their numbers in fields of fixed width. An operation whose
//! result would not fit is outside the domain of the library: its
//! precondition names the room it needs, and `has_room_for_quest` and
//! `has_room_for_level_up` tell beforehand whether a hero has it.

pub mod address;
pub mod contract;
pub mod error;
pub mod events;
pub mod hero;
pub mod laws;
pub mod ledger;
pub mod leveling;
pub mod mvp;
pub mod ownership;
pub mod quests;
pub mod tags;

pub use address::Address;
pub use contract::CelestialHeroesContract;
pub use contract::Transfer;
pub use error::Error;
pub use events::Event;
pub use hero::Hero;
pub use hero::QuestReward;
pub use mvp::CelestialHeroesMVPContract;
pub use mvp::EventMVP;
pub use mvp::HeroMVP;
pub use tags::Arcana;
pub use tags::Planet;
