//! Quest resolution: difficulty, the entropy that stands in for chance, and
//! the experience and statistics a quest awards.
//!
//! Nothing here is random. The entropy of an attempt is a public arithmetic
//! mix of the hero's id and the block height, so anyone can compute the
//! outcome of a quest before attempting it.

use vstd::prelude::*;

verus! {

/// Highest quest identifier; quests are numbered from 1.
pub const MAX_QUEST_ID: u32 = 10;

/// Blocks that must pass between two quest attempts of one hero.
pub const QUEST_COOLDOWN_BLOCKS: u64 = 50;

/// Difficulty of a quest; 0 for an identifier that names no quest.
pub open spec fn quest_difficulty(quest_id: int) -> int {
    if quest_id == 1 {
        5
    } else if quest_id == 2 {
        10
    } else if quest_id == 3 {
        18
    } else if quest_id == 4 {
        28
    } else if quest_id == 5 {
        40
    } else if quest_id == 6 {
        55
    } else if quest_id == 7 {
        75
    } else if quest_id == 8 {
        95
    } else if quest_id == 9 {
        120
    } else if quest_id == 10 {
        150
    } else {
        0
    }
}

/// Experience a quest is worth before luck and outcome are applied; 0 for an
/// identifier that names no quest.
pub open spec fn base_xp(quest_id: int) -> int {
    if 1 <= quest_id <= 2 {
        50 * quest_id
    } else if 3 <= quest_id <= 5 {
        100 * quest_id
    } else if 6 <= quest_id <= 8 {
        200 * quest_id
    } else if 9 <= quest_id <= 10 {
        350 * quest_id
    } else {
        0
    }
}

/// Entropy of a quest attempt, in `[0, 1000)`.
pub open spec fn entropy(hero_id: int, block: int) -> int {
    (hero_id * 1009 + block * 997) % 1000
}

/// Variance added to a starting statistic, in `[0, 8)`. `stat` selects the
/// statistic: 1 for strength, 2 for wisdom, 3 for luck.
pub open spec fn variance(seed: int, stat: int) -> int {
    ((seed * 997 + stat * 1009) % 100) % 8
}

/// Whether an attempt succeeds: the hero's power and the entropy together
/// must exceed ten times the difficulty.
pub open spec fn quest_succeeds(power: int, quest_id: int, entropy: int) -> bool {
    power + entropy > quest_difficulty(quest_id) * 10
}

/// Base experience scaled by luck: each point of luck adds two percent.
pub open spec fn luck_scaled_xp(quest_id: int, luck: int) -> int {
    (base_xp(quest_id) * (100 + luck * 2)) / 100
}

/// Experience awarded: one and a half times the scaled amount on success,
/// half of it on failure, both rounded down.
pub open spec fn quest_xp(quest_id: int, luck: int, success: bool) -> int {
    if success {
        (luck_scaled_xp(quest_id, luck) * 150) / 100
    } else {
        luck_scaled_xp(quest_id, luck) / 2
    }
}

/// (strength, wisdom, luck) awarded by a quest; nothing on failure.
pub open spec fn quest_bonus(quest_id: int, success: bool) -> (int, int, int) {
    if success {
        (quest_id / 3, (quest_id + 1) / 3, (quest_id + 2) / 3)
    } else {
        (0, 0, 0)
    }
}

/// Text reported with the outcome of a quest.
pub open spec fn quest_message(success: bool) -> Seq<char> {
    if success {
        "Quest completed successfully!"@
    } else {
        "Quest failed, but gained experience."@
    }
}

/// Among the quests that exist, a higher identifier means a harder quest.
pub proof fn lemma_quest_difficulty_increasing(a: int, b: int)
    requires
        1 <= a < b <= MAX_QUEST_ID,
    ensures
        quest_difficulty(a) < quest_difficulty(b),
{
}

/// Returns the difficulty of a quest, or 0 if `quest_id` names none.
pub fn get_quest_difficulty(quest_id: u32) -> (difficulty: u64)
    ensures
        difficulty == quest_difficulty(quest_id as int),
{
    match quest_id {
        1 => 5,
        2 => 10,
        3 => 18,
        4 => 28,
        5 => 40,
        6 => 55,
        7 => 75,
        8 => 95,
        9 => 120,
        10 => 150,
        _ => 0,
    }
}

/// Returns the base experience of a quest, or 0 if `quest_id` names none.
pub fn get_base_xp(quest_id: u32) -> (xp: u64)
    ensures
        xp == base_xp(quest_id as int),
        xp <= 3500,
{
    let id: u64 = quest_id as u64;
    if 1 <= id && id <= 2 {
        50 * id
    } else if 3 <= id && id <= 5 {
        100 * id
    } else if 6 <= id && id <= 8 {
        200 * id
    } else if 9 <= id && id <= 10 {
        350 * id
    } else {
        0
    }
}

/// Returns the entropy of an attempt by hero `hero_id` at height
/// `block_nonce`.
pub fn generate_random(hero_id: u64, block_nonce: u64) -> (e: u64)
    ensures
        e == entropy(hero_id as int, block_nonce as int),
        e < 1000,
{
    let mixed: u128 = hero_id as u128 * 1009 + block_nonce as u128 * 997;
    (mixed % 1000) as u64
}

/// Returns the variance of starting statistic `stat_type` for the hero whose
/// id is `seed`.
pub fn calculate_variance(seed: u64, stat_type: u32) -> (v: u32)
    ensures
        v == variance(seed as int, stat_type as int),
        v < 8,
{
    let mixed: u128 = seed as u128 * 997 + stat_type as u128 * 1009;
    ((mixed % 100) % 8) as u32
}

} // verus!
