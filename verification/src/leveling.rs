//! The experience curve and the statistics a hero gains with each level.

use vstd::prelude::*;

verus! {

/// Highest level a hero can reach.
pub const MAX_LEVEL: u32 = 100;

/// Highest level whose experience requirement fits in 64 bits.
pub const MAX_PRICED_LEVEL: u32 = 607_400_098;

/// Experience a hero of `level` must spend to advance: `50 * level^2 + 100 * level`.
pub open spec fn required_xp(level: int) -> int {
    level * level * 50 + level * 100
}

/// Strength gained on reaching `level`.
pub open spec fn strength_growth(level: int) -> int {
    (3 + level / 10) + level % 5
}

/// Wisdom gained on reaching `level`.
pub open spec fn wisdom_growth(level: int) -> int {
    (3 + level / 10) - 1 + level % 4
}

/// Luck gained on reaching `level`.
pub open spec fn luck_growth(level: int) -> int {
    (3 + level / 10) / 2 + level % 3
}

/// The curve rises strictly: a higher level always costs more.
pub proof fn lemma_required_xp_increasing(a: int, b: int)
    requires
        0 <= a < b,
    ensures
        required_xp(a) < required_xp(b),
{
    assert(a * a <= a * b) by (nonlinear_arith)
        requires
            0 <= a < b,
    ;
    assert(a * b < b * b) by (nonlinear_arith)
        requires
            0 <= a < b,
    ;
}

/// From level 1 on, advancing costs at least 150 experience.
pub proof fn lemma_required_xp_floor(level: int)
    requires
        1 <= level,
    ensures
        required_xp(level) >= 150,
{
    assert(required_xp(1) == 150);
    if level > 1 {
        lemma_required_xp_increasing(1, level);
    }
}

/// The result of the curve fits 64 bits exactly up to `MAX_PRICED_LEVEL`.
pub proof fn lemma_required_xp_fits(level: int)
    requires
        0 <= level,
    ensures
        required_xp(level) <= u64::MAX <==> level <= MAX_PRICED_LEVEL,
{
    assert(required_xp(607_400_098) <= u64::MAX);
    assert(required_xp(607_400_099) > u64::MAX);
    if level < 607_400_098 {
        lemma_required_xp_increasing(level, 607_400_098);
    }
    if level > 607_400_099 {
        lemma_required_xp_increasing(607_400_099, level);
    }
}

/// Returns the experience needed to advance from `current_level`.
///
/// The result must fit the return type, which it does up to `MAX_PRICED_LEVEL`.
pub fn get_required_xp(current_level: u32) -> (xp: u64)
    requires
        required_xp(current_level as int) <= u64::MAX,
    ensures
        xp == required_xp(current_level as int),
{
    let level: u64 = current_level as u64;
    assert(level * level <= level * level * 50 <= u64::MAX) by (nonlinear_arith)
        requires
            level * level * 50 + level * 100 <= u64::MAX,
    ;
    level * level * 50 + level * 100
}

/// Returns the (strength, wisdom, luck) a hero gains on reaching `level`.
pub fn level_growth(level: u32) -> (growth: (u32, u32, u32))
    ensures
        growth.0 == strength_growth(level as int),
        growth.1 == wisdom_growth(level as int),
        growth.2 == luck_growth(level as int),
{
    let base_increase: u32 = 3 + level / 10;
    (base_increase + level % 5, base_increase - 1 + level % 4, base_increase / 2 + level % 3)
}

} // verus!
