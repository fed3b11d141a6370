use celestial_heroes::hero::is_valid_name;
use celestial_heroes::hero::resolve_quest;
use celestial_heroes::leveling::get_required_xp;
use celestial_heroes::leveling::level_growth;
use celestial_heroes::leveling::MAX_LEVEL;
use celestial_heroes::leveling::MAX_PRICED_LEVEL;
use celestial_heroes::quests::calculate_variance;
use celestial_heroes::quests::generate_random;
use celestial_heroes::quests::get_base_xp;
use celestial_heroes::quests::get_quest_difficulty;
use celestial_heroes::Arcana;
use celestial_heroes::Error;
use celestial_heroes::Hero;
use celestial_heroes::Planet;

fn plain_hero(strength: u32, wisdom: u32, luck: u32) -> Hero {
    Hero {
        id: 1,
        planet: Planet::Sun,
        arcana: Arcana::Fool,
        level: 1,
        xp: 0,
        strength,
        wisdom,
        luck,
        quest_count: 0,
        total_quests_completed: 0,
        last_quest_block: 0,
        creation_timestamp: 7,
        name: b"Solo".to_vec(),
    }
}

#[test]
fn planet_modifiers_follow_the_table() {
    assert_eq!(Planet::Sun.get_stat_modifier(), (15, 10, 8));
    assert_eq!(Planet::Moon.get_stat_modifier(), (8, 15, 12));
    assert_eq!(Planet::Mercury.get_stat_modifier(), (10, 14, 9));
    assert_eq!(Planet::Venus.get_stat_modifier(), (9, 12, 14));
    assert_eq!(Planet::Mars.get_stat_modifier(), (16, 7, 10));
    assert_eq!(Planet::Jupiter.get_stat_modifier(), (13, 13, 11));
    assert_eq!(Planet::Saturn.get_stat_modifier(), (11, 15, 8));
    assert_eq!(Planet::Uranus.get_stat_modifier(), (12, 11, 13));
    assert_eq!(Planet::Neptune.get_stat_modifier(), (9, 16, 11));
    assert_eq!(Planet::Pluto.get_stat_modifier(), (14, 9, 14));
}

#[test]
fn arcana_bonus_is_half_the_number_plus_five() {
    assert_eq!(Arcana::Fool.get_base_bonus(), 5);
    assert_eq!(Arcana::Magician.get_base_bonus(), 5);
    assert_eq!(Arcana::HighPriestess.get_base_bonus(), 6);
    assert_eq!(Arcana::Hermit.get_base_bonus(), 9);
    assert_eq!(Arcana::WheelOfFortune.get_base_bonus(), 10);
    assert_eq!(Arcana::Judgement.get_base_bonus(), 15);
    assert_eq!(Arcana::World.get_base_bonus(), 15);
    assert_eq!(Arcana::Fool.get_number(), 0);
    assert_eq!(Arcana::World.get_number(), 21);
}

#[test]
fn required_xp_follows_the_curve() {
    assert_eq!(get_required_xp(0), 0);
    assert_eq!(get_required_xp(1), 150);
    assert_eq!(get_required_xp(2), 400);
    assert_eq!(get_required_xp(3), 750);
    assert_eq!(get_required_xp(4), 1200);
    assert_eq!(get_required_xp(10), 6000);
    assert_eq!(get_required_xp(99), 499_950);
    assert_eq!(get_required_xp(MAX_LEVEL), 510_000);
    assert_eq!(get_required_xp(MAX_PRICED_LEVEL), 18_446_744_013_260_490_000);
}

#[test]
fn required_xp_rises_with_the_level() {
    let mut level: u32 = 1;
    while level <= MAX_LEVEL {
        assert!(get_required_xp(level) >= 150);
        assert!(get_required_xp(level - 1) < get_required_xp(level));
        level += 1;
    }
}

#[test]
fn level_growth_follows_tier_and_remainders() {
    assert_eq!(level_growth(2), (5, 4, 3));
    assert_eq!(level_growth(3), (6, 5, 1));
    assert_eq!(level_growth(4), (7, 2, 2));
    assert_eq!(level_growth(10), (4, 5, 3));
    assert_eq!(level_growth(59), (12, 10, 6));
    assert_eq!(level_growth(100), (13, 12, 7));
}

#[test]
fn quest_difficulty_follows_the_table() {
    let expected: [u64; 10] = [5, 10, 18, 28, 40, 55, 75, 95, 120, 150];
    let mut quest_id: u32 = 1;
    while quest_id <= 10 {
        assert_eq!(get_quest_difficulty(quest_id), expected[(quest_id - 1) as usize]);
        quest_id += 1;
    }
    assert_eq!(get_quest_difficulty(0), 0);
    assert_eq!(get_quest_difficulty(11), 0);
    assert_eq!(get_quest_difficulty(u32::MAX), 0);
}

#[test]
fn base_xp_follows_the_brackets() {
    let expected: [u64; 12] = [0, 50, 100, 300, 400, 500, 1200, 1400, 1600, 3150, 3500, 0];
    let mut quest_id: u32 = 0;
    while quest_id < 12 {
        assert_eq!(get_base_xp(quest_id), expected[quest_id as usize]);
        quest_id += 1;
    }
}

#[test]
fn entropy_mixes_id_and_block() {
    assert_eq!(generate_random(1, 0), 9);
    assert_eq!(generate_random(1, 50), 859);
    assert_eq!(generate_random(1, 150), 559);
    assert_eq!(generate_random(1, 200), 409);
    assert_eq!(generate_random(2, 150), 568);
    assert_eq!(generate_random(u64::MAX, u64::MAX), 690);
}

#[test]
fn variance_stays_below_eight() {
    assert_eq!(calculate_variance(1, 1), 6);
    assert_eq!(calculate_variance(1, 2), 7);
    assert_eq!(calculate_variance(1, 3), 0);
    assert_eq!(calculate_variance(2, 1), 3);
    assert_eq!(calculate_variance(2, 2), 4);
    assert_eq!(calculate_variance(2, 3), 5);
    assert_eq!(calculate_variance(u64::MAX, 3), 2);
    let mut seed: u64 = 0;
    while seed < 500 {
        assert!(calculate_variance(seed, 1) < 8);
        assert!(calculate_variance(seed, 2) < 8);
        assert!(calculate_variance(seed, 3) < 8);
        seed += 1;
    }
}

#[test]
fn name_length_bounds() {
    assert!(!is_valid_name(&Vec::new()));
    assert!(is_valid_name(&vec![b'a']));
    assert!(is_valid_name(&vec![b'a'; 32]));
    assert!(!is_valid_name(&vec![b'a'; 33]));
}

#[test]
fn resolve_quest_on_the_threshold_fails() {
    // power 30 and entropy 20 meet ten times the difficulty of quest 1 exactly
    let reward = resolve_quest(10, 10, 10, 1, 20);
    assert!(!reward.success);
    assert_eq!(reward.xp_gained, 30);
    assert_eq!(reward.bonus_stats, (0, 0, 0));
    assert_eq!(reward.message, "Quest failed, but gained experience.");

    let reward = resolve_quest(10, 10, 10, 1, 21);
    assert!(reward.success);
    assert_eq!(reward.xp_gained, 90);
    assert_eq!(reward.bonus_stats, (0, 0, 1));
    assert_eq!(reward.message, "Quest completed successfully!");
}

#[test]
fn resolve_quest_rewards_by_bracket() {
    // luck 15 scales the base by 130 percent
    let won: [u64; 10] = [97, 195, 585, 780, 975, 2340, 2730, 3120, 6142, 6825];
    let lost: [u64; 10] = [32, 65, 195, 260, 325, 780, 910, 1040, 2047, 2275];
    let bonus: [(u32, u32, u32); 10] = [
        (0, 0, 1),
        (0, 1, 1),
        (1, 1, 1),
        (1, 1, 2),
        (1, 2, 2),
        (2, 2, 2),
        (2, 2, 3),
        (2, 3, 3),
        (3, 3, 3),
        (3, 3, 4),
    ];
    let mut quest_id: u32 = 1;
    while quest_id <= 10 {
        let i = (quest_id - 1) as usize;
        let reward = resolve_quest(1000, 1000, 15, quest_id, 0);
        assert!(reward.success);
        assert_eq!(reward.xp_gained, won[i]);
        assert_eq!(reward.bonus_stats, bonus[i]);
        let reward = resolve_quest(0, 0, 15, quest_id, 0);
        assert!(!reward.success);
        assert_eq!(reward.xp_gained, lost[i]);
        assert_eq!(reward.bonus_stats, (0, 0, 0));
        quest_id += 1;
    }
}

#[test]
fn resolve_quest_takes_the_largest_inputs() {
    let reward = resolve_quest(u32::MAX, u32::MAX, u32::MAX, 10, u64::MAX);
    assert!(reward.success);
    // 3500 * (100 + 2 * 4294967295) / 100 * 150 / 100
    assert_eq!(reward.xp_gained, 450_971_571_225);
    assert_eq!(reward.bonus_stats, (3, 3, 4));
}

#[test]
fn failed_quest_gains_half_and_keeps_the_statistics() {
    let mut hero = plain_hero(10, 10, 10);
    assert_eq!(generate_random(1, 330), 19);
    assert!(hero.has_room_for_quest(1, 330));
    let reward = hero.quest(1, 330).unwrap();
    assert!(!reward.success);
    assert_eq!(reward.xp_gained, 30);
    assert_eq!(reward.bonus_stats, (0, 0, 0));

    let mut expected = plain_hero(10, 10, 10);
    expected.xp = 30;
    expected.quest_count = 1;
    expected.last_quest_block = 330;
    assert_eq!(hero, expected);
}

#[test]
fn hero_quest_rejects_unknown_quests_before_the_cooldown() {
    let mut hero = plain_hero(10, 10, 10);
    assert_eq!(hero.quest(0, 10), Err(Error::InvalidInput));
    assert_eq!(hero.quest(11, 1000), Err(Error::InvalidInput));
    assert_eq!(hero.quest(1, 49), Err(Error::OnCooldown));
    assert_eq!(hero, plain_hero(10, 10, 10));
    assert!(!hero.can_quest(49));
    assert!(hero.can_quest(50));
}

#[test]
fn hero_cooldown_near_the_last_block() {
    let mut hero = plain_hero(10, 10, 10);
    hero.last_quest_block = u64::MAX - 10;
    assert!(!hero.can_quest(u64::MAX));
    assert_eq!(hero.quest(1, u64::MAX), Err(Error::OnCooldown));
    hero.last_quest_block = u64::MAX - 50;
    assert!(hero.can_quest(u64::MAX));
}

#[test]
fn hero_without_room_is_reported() {
    let mut hero = plain_hero(10, 10, 10);
    hero.xp = u64::MAX - 29;
    assert!(!hero.has_room_for_quest(1, 330));
    hero.xp = u64::MAX - 30;
    assert!(hero.has_room_for_quest(1, 330));
    hero.quest_count = u32::MAX;
    assert!(!hero.has_room_for_quest(1, 330));

    let mut strong = plain_hero(u32::MAX, 10, 10);
    strong.xp = 150;
    assert!(!strong.has_room_for_level_up());
    strong.strength = u32::MAX - 5;
    assert!(strong.has_room_for_level_up());
    assert_eq!(strong.level_up(), Ok(()));
    assert_eq!(strong.strength, u32::MAX);
}

#[test]
fn hero_level_up_and_rename() {
    let mut hero = plain_hero(10, 10, 10);
    hero.xp = 149;
    assert_eq!(hero.level_up(), Err(Error::InsufficientResource));
    hero.xp = 150;
    assert_eq!(hero.level_up(), Ok(()));
    assert_eq!((hero.level, hero.xp), (2, 0));
    assert_eq!((hero.strength, hero.wisdom, hero.luck), (15, 14, 13));

    hero.level = MAX_LEVEL;
    hero.xp = u64::MAX;
    assert_eq!(hero.level_up(), Err(Error::InsufficientResource));
    assert_eq!(hero.level, MAX_LEVEL);

    hero.level = MAX_LEVEL - 1;
    hero.xp = 499_950;
    assert_eq!(hero.level_up(), Ok(()));
    assert_eq!((hero.level, hero.xp), (100, 0));
    assert_eq!((hero.strength, hero.wisdom, hero.luck), (28, 26, 20));

    assert_eq!(hero.rename(Vec::new()), Err(Error::InvalidInput));
    assert_eq!(hero.rename(vec![b'x'; 33]), Err(Error::InvalidInput));
    assert_eq!(hero.name, b"Solo".to_vec());
    assert_eq!(hero.rename(b"Duo".to_vec()), Ok(()));
    assert_eq!(hero.name, b"Duo".to_vec());
}

#[test]
fn hero_clone_is_equal() {
    let hero = plain_hero(1, 2, 3);
    assert_eq!(hero.clone(), hero);
    let reward = resolve_quest(1, 2, 3, 4, 5);
    assert_eq!(reward.clone(), reward);
}

#[test]
fn can_level_up_needs_experience_below_the_cap() {
    let mut hero = plain_hero(10, 10, 10);
    assert!(!hero.can_level_up());
    hero.xp = 149;
    assert!(!hero.can_level_up());
    hero.xp = 150;
    assert!(hero.can_level_up());
    hero.level = MAX_LEVEL - 1;
    hero.xp = 499_949;
    assert!(!hero.can_level_up());
    hero.xp = 499_950;
    assert!(hero.can_level_up());
    hero.level = MAX_LEVEL;
    hero.xp = u64::MAX;
    assert!(!hero.can_level_up());
    hero.level = u32::MAX;
    assert!(!hero.can_level_up());
    assert!(!hero.has_room_for_level_up());
}

#[test]
fn every_rejection_has_its_reason() {
    assert_eq!(Error::InsufficientPayment.reason(), "Payment below the required minimum");
    assert_eq!(Error::InvalidInput.reason(), "Invalid name length or quest id");
    assert_eq!(Error::NotOwner.reason(), "Not hero owner");
    assert_eq!(Error::NotFound.reason(), "Hero does not exist");
    assert_eq!(Error::InsufficientResource.reason(), "Not enough experience, level or balance");
    assert_eq!(Error::OnCooldown.reason(), "Hero is resting. Try again later.");
    assert_eq!(Error::Unauthorized.reason(), "Caller is not the owner");
}

#[test]
fn summoned_hero_starts_at_level_one() {
    let hero = Hero::summon(2, Planet::Sun, Arcana::World, b"Helios".to_vec(), 120, 99);
    let expected = Hero {
        id: 2,
        planet: Planet::Sun,
        arcana: Arcana::World,
        level: 1,
        xp: 0,
        strength: 15 + 15 + 3,
        wisdom: 10 + 15 + 4,
        luck: 8 + 15 + 5,
        quest_count: 0,
        total_quests_completed: 0,
        last_quest_block: 120,
        creation_timestamp: 99,
        name: b"Helios".to_vec(),
    };
    assert_eq!(hero, expected);
}
