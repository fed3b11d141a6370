//! Laws of the ledger, proved once for every state and every input.

use vstd::prelude::*;
use crate::address::Address;
use crate::error::Error;
use crate::hero::HeroView;
use crate::ledger::LedgerView;
use crate::leveling::required_xp;
use crate::leveling::MAX_LEVEL;
use crate::quests::MAX_QUEST_ID;
use crate::quests::QUEST_COOLDOWN_BLOCKS;
use crate::tags::Arcana;
use crate::tags::Planet;

verus! {

/// A summon hands out the value the id counter had before it and advances
/// the counter by exactly one. The heroes that existed before stay as they
/// were, with their holders.
pub proof fn law_summon_issues_next_id(
    ledger: LedgerView,
    caller: Address,
    payment: nat,
    planet: Planet,
    arcana: Arcana,
    name: Seq<u8>,
    block: nat,
    timestamp: nat,
)
    requires
        ledger.wf(),
    ensures
        ({
            let after = ledger.after_summon(
                caller,
                payment,
                planet,
                arcana,
                name,
                block,
                timestamp,
            );
            &&& after.wf() <==> HeroView::summoned(
                ledger.next_id(),
                planet,
                arcana,
                name,
                block,
                timestamp,
            ).wf()
            &&& after.next_id() == ledger.next_id() + 1
            &&& after.hero(ledger.next_id()).id == ledger.next_id()
            &&& after.holds(caller, ledger.next_id())
            &&& after.treasury == ledger.treasury + payment
            &&& forall|id: nat|
                ledger.has_hero(id) ==> after.has_hero(id) && #[trigger] after.hero(id)
                    == ledger.hero(id)
            &&& forall|who: Address, id: nat|
                ledger.has_hero(id) ==> (#[trigger] after.holds(who, id) <==> ledger.holds(who, id))
        }),
{
    let after = ledger.after_summon(caller, payment, planet, arcana, name, block, timestamp);
    let hero = HeroView::summoned(ledger.next_id(), planet, arcana, name, block, timestamp);
    assert(after.heroes[ledger.heroes.len() as int] == hero);
    if hero.wf() {
        assert forall|i: int| 0 <= i < after.heroes.len() implies (#[trigger] after.heroes[i]).id
            == i + 1 && after.heroes[i].wf() by {
            if i < ledger.heroes.len() {
                assert(after.heroes[i] == ledger.heroes[i]);
            }
        }
    }
}

/// Every hero that exists is in the set of exactly one account, and no set
/// holds the id of a hero that does not exist.
pub proof fn law_one_holder(ledger: LedgerView, id: nat)
    requires
        ledger.wf(),
    ensures
        ledger.has_hero(id) ==> ledger.heroes_of(ledger.holders[id - 1]).contains(id),
        forall|a: Address, b: Address|
            ledger.heroes_of(a).contains(id) && ledger.heroes_of(b).contains(id) ==> a == b,
        forall|a: Address| ledger.heroes_of(a).contains(id) ==> ledger.has_hero(id),
{
}

/// A quest attempted by the holder, for a quest that exists, before the
/// cooldown has passed is refused with `OnCooldown`.
pub proof fn law_quest_on_cooldown(
    ledger: LedgerView,
    caller: Address,
    hero_id: nat,
    quest_id: nat,
    block: nat,
)
    requires
        ledger.holds(caller, hero_id),
        1 <= quest_id <= MAX_QUEST_ID,
        block < ledger.hero(hero_id).last_quest_block + QUEST_COOLDOWN_BLOCKS,
    ensures
        ledger.quest_refusal(caller, hero_id, quest_id, block) == Some(Error::OnCooldown),
{
}

/// An accepted quest moves the cooldown anchor to the current block and
/// counts one more attempt, whether it succeeds or fails. It leaves the
/// identity, the tags, the level, the creation time and the name alone, and
/// on failure the statistics and the count of successes too.
pub proof fn law_quest_consumes_cooldown(hero: HeroView, quest_id: nat, block: nat)
    ensures
        ({
            let after = hero.after_quest(quest_id, block);
            &&& after.last_quest_block == block
            &&& after.quest_count == hero.quest_count + 1
            &&& after.xp == hero.xp + hero.xp_from(quest_id, block)
            &&& after.id == hero.id
            &&& after.planet == hero.planet
            &&& after.arcana == hero.arcana
            &&& after.level == hero.level
            &&& after.creation_timestamp == hero.creation_timestamp
            &&& after.name == hero.name
            &&& !hero.succeeds(quest_id, block) ==> {
                &&& after.strength == hero.strength
                &&& after.wisdom == hero.wisdom
                &&& after.luck == hero.luck
                &&& after.total_quests_completed == hero.total_quests_completed
            }
            &&& hero.succeeds(quest_id, block) ==> after.total_quests_completed
                == hero.total_quests_completed + 1
            &&& after.strength >= hero.strength
            &&& after.wisdom >= hero.wisdom
            &&& after.luck >= hero.luck
        }),
{
}

/// A hero cannot advance with less experience than its level requires, nor
/// from `MAX_LEVEL`. A hero that advances spends exactly the experience its
/// old level requires and rises by exactly one level; its identity, tags,
/// quest counts, cooldown anchor, creation time and name stay.
pub proof fn law_level_up(hero: HeroView)
    ensures
        hero.xp < required_xp(hero.level as int) || hero.level == MAX_LEVEL
            ==> !hero.can_level_up(),
        hero.can_level_up() ==> {
            let after = hero.after_level_up();
            &&& after.xp == hero.xp - required_xp(hero.level as int)
            &&& after.level == hero.level + 1
            &&& after.strength >= hero.strength
            &&& after.wisdom >= hero.wisdom
            &&& after.luck >= hero.luck
            &&& after.id == hero.id
            &&& after.planet == hero.planet
            &&& after.arcana == hero.arcana
            &&& after.quest_count == hero.quest_count
            &&& after.total_quests_completed == hero.total_quests_completed
            &&& after.last_quest_block == hero.last_quest_block
            &&& after.creation_timestamp == hero.creation_timestamp
            &&& after.name == hero.name
        },
{
}

/// A level-up by anyone but the holder, or of a hero that cannot advance, is
/// refused.
pub proof fn law_level_up_refused(ledger: LedgerView, caller: Address, hero_id: nat)
    ensures
        ledger.level_up_refusal(caller, hero_id) is None <==> ledger.holds(caller, hero_id)
            && ledger.hero(hero_id).can_level_up(),
{
}

/// A withdrawal is refused for every caller but the owner and for every
/// amount above the balance; an accepted one lowers the balance by exactly
/// the amount and changes nothing else.
pub proof fn law_withdrawal(ledger: LedgerView, caller: Address, amount: nat)
    ensures
        caller != ledger.owner ==> ledger.withdrawal_refusal(caller, amount) == Some(
            Error::Unauthorized,
        ),
        amount > ledger.treasury ==> ledger.withdrawal_refusal(caller, amount) is Some,
        ledger.withdrawal_refusal(caller, amount) is None ==> {
            let after = ledger.after_withdrawal(amount);
            &&& after.treasury == ledger.treasury - amount
            &&& after.heroes == ledger.heroes
            &&& after.holders == ledger.holders
            &&& after.owner == ledger.owner
            &&& after.events == ledger.events
        },
{
}

/// After a quest, a level-up or a rename of hero `hero_id`, reading that
/// hero back gives exactly the record the operation made, and reading any
/// other hero gives what it gave before. No operation on a hero changes who
/// holds which hero.
pub proof fn law_read_after_write(
    ledger: LedgerView,
    hero_id: nat,
    other: nat,
    quest_id: nat,
    block: nat,
    payment: nat,
    name: Seq<u8>,
)
    requires
        ledger.has_hero(hero_id),
        ledger.has_hero(other),
        other != hero_id,
    ensures
        ({
            let after = ledger.after_quest(hero_id, quest_id, block);
            &&& after.hero(hero_id) == ledger.hero(hero_id).after_quest(quest_id, block)
            &&& after.hero(other) == ledger.hero(other)
            &&& after.next_id() == ledger.next_id()
            &&& after.holders == ledger.holders
            &&& after.treasury == ledger.treasury
        }),
        ({
            let after = ledger.after_level_up(hero_id);
            &&& after.hero(hero_id) == ledger.hero(hero_id).after_level_up()
            &&& after.hero(other) == ledger.hero(other)
            &&& after.next_id() == ledger.next_id()
            &&& after.holders == ledger.holders
            &&& after.treasury == ledger.treasury
        }),
        ({
            let after = ledger.after_rename(payment, hero_id, name);
            &&& after.hero(hero_id) == ledger.hero(hero_id).renamed(name)
            &&& after.hero(hero_id).name == name
            &&& after.hero(other) == ledger.hero(other)
            &&& after.next_id() == ledger.next_id()
            &&& after.holders == ledger.holders
            &&& after.treasury == ledger.treasury + payment
        }),
{
}

/// Operations that a well-formed ledger accepts leave it well formed.
pub proof fn law_operations_keep_wf(
    ledger: LedgerView,
    caller: Address,
    hero_id: nat,
    quest_id: nat,
    block: nat,
    payment: nat,
    name: Seq<u8>,
    amount: nat,
)
    requires
        ledger.wf(),
    ensures
        ledger.quest_refusal(caller, hero_id, quest_id, block) is None ==> ledger.after_quest(
            hero_id,
            quest_id,
            block,
        ).wf(),
        ledger.level_up_refusal(caller, hero_id) is None ==> ledger.after_level_up(hero_id).wf(),
        ledger.rename_refusal(caller, payment, hero_id, name) is None ==> ledger.after_rename(
            payment,
            hero_id,
            name,
        ).wf(),
        ledger.after_withdrawal(amount).wf(),
{
    if ledger.has_hero(hero_id) {
        let hero = ledger.heroes[hero_id - 1];
        assert(hero.id == hero_id && hero.wf());
    }
}

} // verus!
