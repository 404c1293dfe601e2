//! The encounter generator: once the player has reached the boss
//! threshold every trip into the wilds meets the fixed final boss;
//! below it, a weighted draw yields either a regular enemy — one of
//! three archetypes, scaled to the player's cultivation level — or a
//! meeting with an NPC.

use vstd::prelude::*;
use vstd::string::StringExecFns;
use crate::entities::{Player, Enemy, EnemyKind, player_wf, enemy_wf, MAX_CULTIVATION_LEVEL};
use crate::rng::rng_range;

verus! {

/// From this cultivation level on, the wilds hold only the final boss.
pub const BOSS_LEVEL_THRESHOLD: u32 = 5;

/// Chance, in percent, that a trip below the threshold meets an enemy;
/// the rest of the draws meet an NPC.
pub const ENEMY_ENCOUNTER_PERCENT: u32 = 70;

pub const BOSS_HEALTH: u32 = 500;

pub const BOSS_ATTACK: u32 = 30;

pub const BOSS_DEFENSE: u32 = 15;

/// The three regular opponents the wilds can produce.
#[derive(Clone, Copy, Debug, PartialEq, Eq, Structural)]
pub enum EnemyArchetype {
    Bandit,
    RogueCultivator,
    ShadowAssassin,
}

/// What a trip into the wilds turned up.
#[derive(Debug)]
pub enum EncounterOutcome {
    /// The fixed final boss; defeating it is the terminal win.
    BossFight(Enemy),
    /// A regular, level-scaled enemy.
    EnemyEncounter(Enemy),
    /// A meeting with an NPC instead of a fight.
    NpcEncounter,
}

pub open spec fn archetype_kind(a: EnemyArchetype) -> EnemyKind {
    match a {
        EnemyArchetype::Bandit => EnemyKind::Bandit,
        EnemyArchetype::RogueCultivator => EnemyKind::RogueCultivator,
        EnemyArchetype::ShadowAssassin => EnemyKind::ShadowAssassin,
    }
}

pub open spec fn archetype_name(a: EnemyArchetype) -> Seq<char> {
    match a {
        EnemyArchetype::Bandit => "Bandit"@,
        EnemyArchetype::RogueCultivator => "Rogue Cultivator"@,
        EnemyArchetype::ShadowAssassin => "Shadow Assassin"@,
    }
}

/// Health of an archetype at a scale factor (the player's level).
pub open spec fn archetype_health(a: EnemyArchetype, scale: int) -> int {
    match a {
        EnemyArchetype::Bandit => 40 + 10 * scale,
        EnemyArchetype::RogueCultivator => 60 + 15 * scale,
        EnemyArchetype::ShadowAssassin => 50 + 12 * scale,
    }
}

/// Attack of an archetype at a scale factor.
pub open spec fn archetype_attack(a: EnemyArchetype, scale: int) -> int {
    match a {
        EnemyArchetype::Bandit => 7 + 2 * scale,
        EnemyArchetype::RogueCultivator => 12 + 3 * scale,
        EnemyArchetype::ShadowAssassin => 15 + 3 * scale,
    }
}

/// Defense of an archetype at a scale factor.
pub open spec fn archetype_defense(a: EnemyArchetype, scale: int) -> int {
    match a {
        EnemyArchetype::Bandit => 3 + 1 * scale,
        EnemyArchetype::RogueCultivator => 5 + 2 * scale,
        EnemyArchetype::ShadowAssassin => 4 + 2 * scale,
    }
}

/// That an enemy record is exactly the archetype at the scale factor.
pub open spec fn enemy_matches_archetype(e: Enemy, a: EnemyArchetype, scale: int) -> bool {
    &&& e.kind == archetype_kind(a)
    &&& e.name@ == archetype_name(a)
    &&& e.health == archetype_health(a, scale)
    &&& e.attack == archetype_attack(a, scale)
    &&& e.defense == archetype_defense(a, scale)
    &&& !e.is_boss
}

/// That an enemy record is exactly the fixed final boss.
pub open spec fn is_the_boss(e: Enemy) -> bool {
    &&& e.name@ == "Ancient Demon Lord"@
    &&& e.kind is Boss
    &&& e.health == BOSS_HEALTH
    &&& e.attack == BOSS_ATTACK
    &&& e.defense == BOSS_DEFENSE
    &&& e.is_boss
}

/// Which archetype a uniform draw in 1..=3 picks.
pub open spec fn archetype_for_roll(roll: u32) -> EnemyArchetype {
    if roll == 1 {
        EnemyArchetype::Bandit
    } else if roll == 2 {
        EnemyArchetype::RogueCultivator
    } else {
        EnemyArchetype::ShadowAssassin
    }
}

/// Builds the fixed final boss.
pub fn generate_boss() -> (e: Enemy)
    ensures
        is_the_boss(e),
        enemy_wf(e),
{
    Enemy {
        name: String::from_str("Ancient Demon Lord"),
        kind: EnemyKind::Boss,
        health: BOSS_HEALTH,
        attack: BOSS_ATTACK,
        defense: BOSS_DEFENSE,
        is_boss: true,
    }
}

/// Builds a regular enemy of the archetype, its base stats scaled
/// linearly by the factor (the player's cultivation level).
pub fn enemy_for_archetype(archetype: EnemyArchetype, scale_factor: u32) -> (e: Enemy)
    requires
        1 <= scale_factor <= MAX_CULTIVATION_LEVEL,
    ensures
        enemy_matches_archetype(e, archetype, scale_factor as int),
        enemy_wf(e),
        e.health > 0,
{
    match archetype {
        EnemyArchetype::Bandit => Enemy {
            name: String::from_str("Bandit"),
            kind: EnemyKind::Bandit,
            health: 40 + 10 * scale_factor,
            attack: 7 + 2 * scale_factor,
            defense: 3 + scale_factor,
            is_boss: false,
        },
        EnemyArchetype::RogueCultivator => Enemy {
            name: String::from_str("Rogue Cultivator"),
            kind: EnemyKind::RogueCultivator,
            health: 60 + 15 * scale_factor,
            attack: 12 + 3 * scale_factor,
            defense: 5 + 2 * scale_factor,
            is_boss: false,
        },
        EnemyArchetype::ShadowAssassin => Enemy {
            name: String::from_str("Shadow Assassin"),
            kind: EnemyKind::ShadowAssassin,
            health: 50 + 12 * scale_factor,
            attack: 15 + 3 * scale_factor,
            defense: 4 + 2 * scale_factor,
            is_boss: false,
        },
    }
}

/// Produces the encounter decided by the two given dice: the encounter
/// die (1..=100, at most `ENEMY_ENCOUNTER_PERCENT` meets an enemy) and the
/// archetype die (1..=3). At or above the boss threshold both dice are
/// ignored and the fixed boss appears.
pub fn generate_encounter_with(p: &Player, encounter_roll: u32, type_roll: u32) -> (r:
    EncounterOutcome)
    requires
        player_wf(*p),
        1 <= encounter_roll <= 100,
        1 <= type_roll <= 3,
    ensures
        p.cultivation_level >= BOSS_LEVEL_THRESHOLD ==> (r matches EncounterOutcome::BossFight(e)
            && is_the_boss(e)),
        p.cultivation_level < BOSS_LEVEL_THRESHOLD && encounter_roll <= ENEMY_ENCOUNTER_PERCENT
            ==> (r matches EncounterOutcome::EnemyEncounter(e) && enemy_matches_archetype(
            e,
            archetype_for_roll(type_roll),
            p.cultivation_level as int,
        )),
        p.cultivation_level < BOSS_LEVEL_THRESHOLD && encounter_roll > ENEMY_ENCOUNTER_PERCENT
            ==> r is NpcEncounter,
{
    if p.cultivation_level >= BOSS_LEVEL_THRESHOLD {
        EncounterOutcome::BossFight(generate_boss())
    } else if encounter_roll <= ENEMY_ENCOUNTER_PERCENT {
        let archetype = if type_roll == 1 {
            EnemyArchetype::Bandit
        } else if type_roll == 2 {
            EnemyArchetype::RogueCultivator
        } else {
            EnemyArchetype::ShadowAssassin
        };
        EncounterOutcome::EnemyEncounter(enemy_for_archetype(archetype, p.cultivation_level))
    } else {
        EncounterOutcome::NpcEncounter
    }
}

/// Produces an encounter with the game's own dice. At or above the boss
/// threshold the fixed boss appears; below it, whatever the dice showed,
/// the result is either a regular enemy of some archetype scaled to the
/// player's level, or an NPC meeting.
pub fn generate_encounter(p: &Player) -> (r: EncounterOutcome)
    requires
        player_wf(*p),
    ensures
        p.cultivation_level >= BOSS_LEVEL_THRESHOLD ==> (r matches EncounterOutcome::BossFight(e)
            && is_the_boss(e)),
        p.cultivation_level < BOSS_LEVEL_THRESHOLD ==> ((r matches EncounterOutcome::EnemyEncounter(
            e,
        ) && (exists|type_roll: u32|
            1 <= type_roll <= 3 && enemy_matches_archetype(
                e,
                archetype_for_roll(type_roll),
                p.cultivation_level as int,
            ))) || r is NpcEncounter),
        !(r is BossFight) ==> p.cultivation_level < BOSS_LEVEL_THRESHOLD,
{
    let encounter_roll: u32 = rng_range(1, 100);
    let type_roll: u32 = rng_range(1, 3);
    let r = generate_encounter_with(p, encounter_roll, type_roll);
    proof {
        if p.cultivation_level < BOSS_LEVEL_THRESHOLD && encounter_roll
            <= ENEMY_ENCOUNTER_PERCENT {
            assert(r matches EncounterOutcome::EnemyEncounter(e) && enemy_matches_archetype(
                e,
                archetype_for_roll(type_roll),
                p.cultivation_level as int,
            ));
        }
    }
    r
}

} // verus!
