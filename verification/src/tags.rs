//! The two tags a summoner chooses for a hero. Both are closed sets; each
//! variant maps to fixed starting statistics.

use vstd::prelude::*;

verus! {

/// Ruling planet of a hero. Fixed at creation.
#[derive(Clone, Copy, PartialEq, Eq, Debug, Structural)]
pub enum Planet {
    Sun,
    Moon,
    Mercury,
    Venus,
    Mars,
    Jupiter,
    Saturn,
    Uranus,
    Neptune,
    Pluto,
}

/// Major arcana card of a hero. Fixed at creation.
#[derive(Clone, Copy, PartialEq, Eq, Debug, Structural)]
pub enum Arcana {
    Fool,
    Magician,
    HighPriestess,
    Empress,
    Emperor,
    Hierophant,
    Lovers,
    Chariot,
    Strength,
    Hermit,
    WheelOfFortune,
    Justice,
    HangedMan,
    Death,
    Temperance,
    Devil,
    Tower,
    Star,
    Moon,
    Sun,
    Judgement,
    World,
}

impl Planet {
    /// Starting (strength, wisdom, luck) contributed by the planet.
    pub open spec fn stat_modifier(self) -> (int, int, int) {
        match self {
            Planet::Sun => (15, 10, 8),
            Planet::Moon => (8, 15, 12),
            Planet::Mercury => (10, 14, 9),
            Planet::Venus => (9, 12, 14),
            Planet::Mars => (16, 7, 10),
            Planet::Jupiter => (13, 13, 11),
            Planet::Saturn => (11, 15, 8),
            Planet::Uranus => (12, 11, 13),
            Planet::Neptune => (9, 16, 11),
            Planet::Pluto => (14, 9, 14),
        }
    }

    /// Returns the planet's (strength, wisdom, luck) modifiers.
    pub fn get_stat_modifier(&self) -> (mods: (u32, u32, u32))
        ensures
            mods.0 == self.stat_modifier().0,
            mods.1 == self.stat_modifier().1,
            mods.2 == self.stat_modifier().2,
    {
        match self {
            Planet::Sun => (15, 10, 8),
            Planet::Moon => (8, 15, 12),
            Planet::Mercury => (10, 14, 9),
            Planet::Venus => (9, 12, 14),
            Planet::Mars => (16, 7, 10),
            Planet::Jupiter => (13, 13, 11),
            Planet::Saturn => (11, 15, 8),
            Planet::Uranus => (12, 11, 13),
            Planet::Neptune => (9, 16, 11),
            Planet::Pluto => (14, 9, 14),
        }
    }
}

impl Arcana {
    /// Position of the card in the deck, from 0 (the Fool) to 21 (the World).
    pub open spec fn number(self) -> int {
        match self {
            Arcana::Fool => 0,
            Arcana::Magician => 1,
            Arcana::HighPriestess => 2,
            Arcana::Empress => 3,
            Arcana::Emperor => 4,
            Arcana::Hierophant => 5,
            Arcana::Lovers => 6,
            Arcana::Chariot => 7,
            Arcana::Strength => 8,
            Arcana::Hermit => 9,
            Arcana::WheelOfFortune => 10,
            Arcana::Justice => 11,
            Arcana::HangedMan => 12,
            Arcana::Death => 13,
            Arcana::Temperance => 14,
            Arcana::Devil => 15,
            Arcana::Tower => 16,
            Arcana::Star => 17,
            Arcana::Moon => 18,
            Arcana::Sun => 19,
            Arcana::Judgement => 20,
            Arcana::World => 21,
        }
    }

    /// Bonus the card adds to each starting statistic: half its number,
    /// rounded down, plus five.
    pub open spec fn base_bonus(self) -> int {
        self.number() / 2 + 5
    }

    /// Returns the card's position in the deck.
    pub fn get_number(&self) -> (n: u32)
        ensures
            n == self.number(),
            n <= 21,
    {
        match self {
            Arcana::Fool => 0,
            Arcana::Magician => 1,
            Arcana::HighPriestess => 2,
            Arcana::Empress => 3,
            Arcana::Emperor => 4,
            Arcana::Hierophant => 5,
            Arcana::Lovers => 6,
            Arcana::Chariot => 7,
            Arcana::Strength => 8,
            Arcana::Hermit => 9,
            Arcana::WheelOfFortune => 10,
            Arcana::Justice => 11,
            Arcana::HangedMan => 12,
            Arcana::Death => 13,
            Arcana::Temperance => 14,
            Arcana::Devil => 15,
            Arcana::Tower => 16,
            Arcana::Star => 17,
            Arcana::Moon => 18,
            Arcana::Sun => 19,
            Arcana::Judgement => 20,
            Arcana::World => 21,
        }
    }

    /// Returns the bonus the card adds to each starting statistic.
    pub fn get_base_bonus(&self) -> (bonus: u32)
        ensures
            bonus == self.base_bonus(),
            5 <= bonus <= 15,
    {
        self.get_number() / 2 + 5
    }
}

} // verus!
