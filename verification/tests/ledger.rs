use celestial_heroes::ledger::MIN_RENAME_PAYMENT;
use celestial_heroes::ledger::MIN_SUMMON_PAYMENT;
use celestial_heroes::Address;
use celestial_heroes::Arcana;
use celestial_heroes::CelestialHeroesContract;
use celestial_heroes::Error;
use celestial_heroes::Event;
use celestial_heroes::Hero;
use celestial_heroes::Planet;

fn account(tag: u8) -> Address {
    Address { bytes: [tag; 32] }
}

/// A ledger owned by account 9 in which account 1 summoned Ares at block 100.
fn ledger_with_ares() -> CelestialHeroesContract {
    let mut ledger = CelestialHeroesContract::init(account(9));
    let id = ledger.summon_hero(
        account(1),
        MIN_SUMMON_PAYMENT,
        100,
        1_700_000_000,
        Planet::Mars,
        Arcana::Fool,
        b"Ares".to_vec(),
    );
    assert_eq!(id, Ok(1));
    ledger
}

fn ares() -> Hero {
    Hero {
        id: 1,
        planet: Planet::Mars,
        arcana: Arcana::Fool,
        level: 1,
        xp: 0,
        strength: 27,
        wisdom: 19,
        luck: 15,
        quest_count: 0,
        total_quests_completed: 0,
        last_quest_block: 100,
        creation_timestamp: 1_700_000_000,
        name: b"Ares".to_vec(),
    }
}

#[test]
fn new_ledger_is_empty() {
    let ledger = CelestialHeroesContract::init(account(9));
    assert_eq!(ledger.get_hero_count(), 0);
    assert_eq!(ledger.get_treasury_balance(), 0);
    assert_eq!(ledger.get_owner(), account(9));
    assert_eq!(ledger.get_hero(0), Err(Error::NotFound));
    assert_eq!(ledger.get_hero(1), Err(Error::NotFound));
    assert!(!ledger.can_quest(1, u64::MAX));
    assert!(ledger.get_heroes_by_owner(account(9)).is_empty());
    assert!(ledger.get_events().is_empty());
}

#[test]
fn summon_ares_for_the_minimum_price() {
    let ledger = ledger_with_ares();
    let hero = ledger.get_hero(1).unwrap();
    assert_eq!(hero.id, 1);
    assert_eq!(hero.level, 1);
    assert_eq!(hero.xp, 0);
    // Mars gives (16, 7, 10), the Fool 5, and hero 1 a variance of (6, 7, 0)
    assert_eq!(hero.strength, 16 + 5 + 6);
    assert_eq!(hero.wisdom, 7 + 5 + 7);
    assert_eq!(hero.luck, 10 + 5 + 0);
    assert_eq!(hero, ares());
    assert_eq!(ledger.get_hero_count(), 1);
    assert_eq!(ledger.get_treasury_balance(), 100_000_000_000_000_000);
    assert_eq!(ledger.get_heroes_by_owner(account(1)), vec![1]);
    assert!(ledger.is_holder(account(1), 1));
    assert!(!ledger.is_holder(account(9), 1));
    assert_eq!(
        ledger.get_events(),
        &vec![Event::HeroSummoned {
            owner: account(1),
            hero_id: 1,
            planet: Planet::Mars,
            arcana: Arcana::Fool,
        }]
    );
}

#[test]
fn summon_hands_out_consecutive_ids() {
    let mut ledger = ledger_with_ares();
    let before = ledger.get_hero_count() + 1;
    let id = ledger.summon_hero(
        account(2),
        MIN_SUMMON_PAYMENT + 5,
        120,
        1_700_000_100,
        Planet::Sun,
        Arcana::World,
        vec![b'z'; 32],
    );
    assert_eq!(id, Ok(before));
    assert_eq!(id, Ok(2));
    assert_eq!(ledger.get_hero_count() + 1, before + 1);
    let hero = ledger.get_hero(2).unwrap();
    // the Sun gives (15, 10, 8), the World 15, and hero 2 a variance of (3, 4, 5)
    assert_eq!((hero.strength, hero.wisdom, hero.luck), (33, 29, 28));
    assert_eq!(hero.last_quest_block, 120);
    assert_eq!(hero.creation_timestamp, 1_700_000_100);
    assert_eq!(ledger.get_treasury_balance(), 200_000_000_000_000_005);
    assert_eq!(ledger.get_hero(1), Ok(ares()));
    assert_eq!(ledger.get_heroes_by_owner(account(1)), vec![1]);
    assert_eq!(ledger.get_heroes_by_owner(account(2)), vec![2]);
}

#[test]
fn summon_rejects_low_payment_then_bad_names() {
    let mut ledger = ledger_with_ares();
    let low = ledger.summon_hero(
        account(2),
        MIN_SUMMON_PAYMENT - 1,
        120,
        5,
        Planet::Sun,
        Arcana::World,
        Vec::new(),
    );
    assert_eq!(low, Err(Error::InsufficientPayment));
    let unnamed = ledger.summon_hero(
        account(2),
        MIN_SUMMON_PAYMENT,
        120,
        5,
        Planet::Sun,
        Arcana::World,
        Vec::new(),
    );
    assert_eq!(unnamed, Err(Error::InvalidInput));
    let long = ledger.summon_hero(
        account(2),
        MIN_SUMMON_PAYMENT,
        120,
        5,
        Planet::Sun,
        Arcana::World,
        vec![b'z'; 33],
    );
    assert_eq!(long, Err(Error::InvalidInput));
    assert_eq!(ledger.get_hero_count(), 1);
    assert_eq!(ledger.get_treasury_balance(), MIN_SUMMON_PAYMENT);
    assert_eq!(ledger.get_events().len(), 1);
    assert!(ledger.get_heroes_by_owner(account(2)).is_empty());
}

#[test]
fn quest_before_the_cooldown_changes_nothing() {
    let mut ledger = ledger_with_ares();
    assert!(!ledger.can_quest(1, 100));
    assert!(!ledger.can_quest(1, 149));
    assert_eq!(ledger.quest(account(1), 149, 1, 1), Err(Error::OnCooldown));
    assert_eq!(ledger.quest(account(1), 0, 1, 10), Err(Error::OnCooldown));
    assert_eq!(ledger.get_hero(1), Ok(ares()));
    assert_eq!(ledger.get_events().len(), 1);
    assert!(ledger.can_quest(1, 150));
}

#[test]
fn quest_checks_holder_then_quest_then_cooldown() {
    let mut ledger = ledger_with_ares();
    assert_eq!(ledger.quest(account(2), 149, 1, 0), Err(Error::NotOwner));
    assert_eq!(ledger.quest(account(1), 149, 2, 0), Err(Error::NotOwner));
    assert_eq!(ledger.quest(account(1), 149, 0, 1), Err(Error::NotOwner));
    assert_eq!(ledger.quest(account(1), 149, 1, 0), Err(Error::InvalidInput));
    assert_eq!(ledger.quest(account(1), 149, 1, 11), Err(Error::InvalidInput));
    assert_eq!(ledger.quest(account(1), 1000, 1, 11), Err(Error::InvalidInput));
    assert_eq!(ledger.get_hero(1), Ok(ares()));
}

#[test]
fn quest_success_and_failure() {
    let mut ledger = ledger_with_ares();

    // entropy 559 and power 61 beat the threshold of 50
    let reward = ledger.quest(account(1), 150, 1, 1).unwrap();
    assert!(reward.success);
    assert_eq!(reward.xp_gained, 97);
    assert_eq!(reward.bonus_stats, (0, 0, 1));
    assert_eq!(reward.message, "Quest completed successfully!");
    let mut expected = ares();
    expected.xp = 97;
    expected.luck = 16;
    expected.quest_count = 1;
    expected.total_quests_completed = 1;
    expected.last_quest_block = 150;
    assert_eq!(ledger.get_hero(1), Ok(expected.clone()));

    assert_eq!(ledger.quest(account(1), 199, 1, 10), Err(Error::OnCooldown));
    assert_eq!(ledger.get_hero(1), Ok(expected.clone()));

    // entropy 409 and power 62 stay below the threshold of 1500
    let reward = ledger.quest(account(1), 200, 1, 10).unwrap();
    assert!(!reward.success);
    assert_eq!(reward.xp_gained, 2310);
    assert_eq!(reward.bonus_stats, (0, 0, 0));
    assert_eq!(reward.message, "Quest failed, but gained experience.");
    expected.xp = 2407;
    expected.quest_count = 2;
    expected.last_quest_block = 200;
    assert_eq!(ledger.get_hero(1), Ok(expected));

    assert_eq!(ledger.get_treasury_balance(), MIN_SUMMON_PAYMENT);
    let events = ledger.get_events();
    assert_eq!(events.len(), 3);
    assert_eq!(
        events[1],
        Event::QuestCompleted { hero_id: 1, quest_id: 1, xp_gained: 97, success: true }
    );
    assert_eq!(
        events[2],
        Event::QuestCompleted { hero_id: 1, quest_id: 10, xp_gained: 2310, success: false }
    );
}

#[test]
fn level_up_spends_the_required_experience() {
    let mut ledger = ledger_with_ares();
    assert_eq!(ledger.level_up(account(1), 1), Err(Error::InsufficientResource));
    assert_eq!(ledger.level_up(account(2), 1), Err(Error::NotOwner));
    assert_eq!(ledger.level_up(account(1), 2), Err(Error::NotOwner));
    assert_eq!(ledger.get_hero(1), Ok(ares()));

    ledger.quest(account(1), 150, 1, 1).unwrap();
    ledger.quest(account(1), 200, 1, 10).unwrap();

    assert_eq!(ledger.level_up(account(1), 1), Ok(()));
    let hero = ledger.get_hero(1).unwrap();
    assert_eq!((hero.level, hero.xp), (2, 2407 - 150));
    assert_eq!((hero.strength, hero.wisdom, hero.luck), (32, 23, 19));

    assert_eq!(ledger.level_up(account(1), 1), Ok(()));
    let hero = ledger.get_hero(1).unwrap();
    assert_eq!((hero.level, hero.xp), (3, 2257 - 400));
    assert_eq!((hero.strength, hero.wisdom, hero.luck), (38, 28, 20));

    assert_eq!(ledger.level_up(account(1), 1), Ok(()));
    let hero = ledger.get_hero(1).unwrap();
    assert_eq!((hero.level, hero.xp), (4, 1857 - 750));
    assert_eq!((hero.strength, hero.wisdom, hero.luck), (45, 30, 22));
    assert_eq!((hero.quest_count, hero.total_quests_completed), (2, 1));
    assert_eq!(hero.last_quest_block, 200);
    assert_eq!(hero.name, b"Ares".to_vec());

    // level 4 asks for 1200, the hero holds 1107
    assert_eq!(ledger.level_up(account(1), 1), Err(Error::InsufficientResource));
    assert_eq!(ledger.get_hero(1), Ok(hero));

    let events = ledger.get_events();
    assert_eq!(events.len(), 6);
    assert_eq!(events[3], Event::LevelUp { hero_id: 1, new_level: 2 });
    assert_eq!(events[5], Event::LevelUp { hero_id: 1, new_level: 4 });
}

#[test]
fn rename_replaces_only_the_name() {
    let mut ledger = ledger_with_ares();
    assert_eq!(
        ledger.rename_hero(account(1), MIN_RENAME_PAYMENT, 1, b"Mars Reborn".to_vec()),
        Ok(())
    );
    let mut expected = ares();
    expected.name = b"Mars Reborn".to_vec();
    assert_eq!(ledger.get_hero(1), Ok(expected));
    assert_eq!(ledger.get_treasury_balance(), 110_000_000_000_000_000);
    assert_eq!(
        ledger.get_events()[1],
        Event::HeroRenamed { hero_id: 1, new_name: b"Mars Reborn".to_vec() }
    );
}

#[test]
fn rename_checks_payment_then_name_then_holder() {
    let mut ledger = ledger_with_ares();
    assert_eq!(
        ledger.rename_hero(account(2), MIN_RENAME_PAYMENT - 1, 1, Vec::new()),
        Err(Error::InsufficientPayment)
    );
    assert_eq!(
        ledger.rename_hero(account(2), MIN_RENAME_PAYMENT, 1, Vec::new()),
        Err(Error::InvalidInput)
    );
    assert_eq!(
        ledger.rename_hero(account(2), MIN_RENAME_PAYMENT, 1, vec![b'n'; 33]),
        Err(Error::InvalidInput)
    );
    assert_eq!(
        ledger.rename_hero(account(2), MIN_RENAME_PAYMENT, 1, b"Thief".to_vec()),
        Err(Error::NotOwner)
    );
    assert_eq!(
        ledger.rename_hero(account(1), MIN_RENAME_PAYMENT, 2, b"Ghost".to_vec()),
        Err(Error::NotOwner)
    );
    assert_eq!(ledger.get_hero(1), Ok(ares()));
    assert_eq!(ledger.get_treasury_balance(), MIN_SUMMON_PAYMENT);
    assert_eq!(ledger.get_events().len(), 1);
}

#[test]
fn withdraw_is_for_the_owner_and_within_the_balance() {
    let mut ledger = ledger_with_ares();
    assert_eq!(ledger.withdraw_treasury(account(1), 1), Err(Error::Unauthorized));
    assert_eq!(
        ledger.withdraw_treasury(account(1), MIN_SUMMON_PAYMENT + 1),
        Err(Error::Unauthorized)
    );
    assert_eq!(
        ledger.withdraw_treasury(account(9), MIN_SUMMON_PAYMENT + 1),
        Err(Error::InsufficientResource)
    );
    assert_eq!(ledger.get_treasury_balance(), MIN_SUMMON_PAYMENT);

    let transfer = ledger.withdraw_treasury(account(9), 40_000_000_000_000_000).unwrap();
    assert_eq!(transfer.to, account(9));
    assert_eq!(transfer.amount, 40_000_000_000_000_000);
    assert_eq!(ledger.get_treasury_balance(), 60_000_000_000_000_000);

    let transfer = ledger.withdraw_treasury(account(9), 60_000_000_000_000_000).unwrap();
    assert_eq!(transfer.amount, 60_000_000_000_000_000);
    assert_eq!(ledger.get_treasury_balance(), 0);
    assert_eq!(ledger.withdraw_treasury(account(9), 0).unwrap().amount, 0);
    assert_eq!(ledger.withdraw_treasury(account(9), 1), Err(Error::InsufficientResource));
    assert_eq!(ledger.get_hero(1), Ok(ares()));
    assert_eq!(ledger.get_events().len(), 1);
}

#[test]
fn heroes_by_owner_lists_ids_in_order() {
    let mut ledger = CelestialHeroesContract::init(account(9));
    let owners: [u8; 6] = [1, 2, 1, 3, 2, 1];
    let mut i: usize = 0;
    while i < owners.len() {
        let id = ledger.summon_hero(
            account(owners[i]),
            MIN_SUMMON_PAYMENT,
            10,
            20,
            Planet::Venus,
            Arcana::Star,
            b"Twin".to_vec(),
        );
        assert_eq!(id, Ok(i as u64 + 1));
        i += 1;
    }
    assert_eq!(ledger.get_hero_count(), 6);
    assert_eq!(ledger.get_heroes_by_owner(account(1)), vec![1, 3, 6]);
    assert_eq!(ledger.get_heroes_by_owner(account(2)), vec![2, 5]);
    assert_eq!(ledger.get_heroes_by_owner(account(3)), vec![4]);
    assert!(ledger.get_heroes_by_owner(account(4)).is_empty());
    assert_eq!(ledger.get_heroes_by_owner(account(1)), ledger.get_heroes_by_owner(account(1)));
    assert_eq!(ledger.get_hero(7), Err(Error::NotFound));
    assert_eq!(ledger.get_hero(6).unwrap().id, 6);
    assert_eq!(ledger.get_treasury_balance(), 600_000_000_000_000_000);
}

#[test]
fn addresses_compare_by_all_bytes() {
    let mut near = account(1);
    assert_eq!(near, account(1));
    near.bytes[31] = 2;
    assert_ne!(near, account(1));
    near.bytes[31] = 1;
    near.bytes[0] = 0;
    assert_ne!(near, account(1));
}
