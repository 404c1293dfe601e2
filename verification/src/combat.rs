//! The combat resolver: one call resolves a full turn — the player's
//! action, the immediate defeat check with its rewards, and, when the
//! enemy survives, the enemy's counter-move and the player's own defeat
//! check. The whole turn is a deterministic function of the two records,
//! the chosen action and the two dice drawn for it.

use vstd::prelude::*;
use crate::entities::{Player, Enemy, EnemyKind, player_wf, enemy_wf};
use crate::rng::rng_range;

verus! {

/// Qi spent by one qi strike.
pub const QI_STRIKE_COST: u32 = 10;

/// Damage of a qi strike before defense: the cultivation level times this.
pub const QI_STRIKE_MULT: u32 = 15;

/// Gold awarded for defeating a regular enemy.
pub const VICTORY_GOLD: u32 = 20;

/// Chance, in percent, to find a qi pill after a regular victory.
pub const PILL_CHANCE_PERCENT: u32 = 25;

/// How much one qi pill adds to the training multiplier, in hundredths.
pub const PILL_SPEED_BONUS_CENTIS: u32 = 5;

/// What the player does on their turn. An unrecognized input at the front
/// end forfeits the turn; `Defend` is the forfeit (it has no mechanical
/// effect — a known gap of the design, kept on purpose).
#[derive(Clone, Copy, Debug, PartialEq, Eq, Structural)]
pub enum CombatAction {
    Attack,
    UseQi,
    Defend,
}

/// How the turn left the encounter. `BossDefeated` is the game-winning
/// terminal state; `PlayerDefeat` ends the session.
#[derive(Clone, Copy, Debug, PartialEq, Eq, Structural)]
pub enum TurnOutcome {
    Ongoing,
    PlayerVictory,
    BossDefeated,
    PlayerDefeat,
}

/// Everything a front end needs to narrate one resolved turn.
#[derive(Clone, Copy, Debug, PartialEq, Eq, Structural)]
pub struct TurnReport {
    pub outcome: TurnOutcome,
    /// Damage the player's action dealt; zero when none was dealt.
    pub damage_to_enemy: u32,
    /// True when a qi strike was asked for with too little qi: the action
    /// became a no-op and the turn went on.
    pub insufficient_qi: bool,
    /// True when the enemy chose to strike back rather than brace.
    pub enemy_attacked: bool,
    pub damage_to_player: u32,
    /// Gold granted by a regular victory; zero otherwise.
    pub gold_awarded: u32,
    pub gained_qi_pill: bool,
}

/// Damage dealt by an attacker against a defense value: their difference,
/// but never less than one point.
pub open spec fn damage_amount(attack: int, defense: int) -> int {
    if attack - defense >= 1 {
        attack - defense
    } else {
        1
    }
}

/// Health after taking damage, floored at zero (zero is defeat).
pub open spec fn drain(health: u32, dmg: int) -> u32 {
    if dmg >= health {
        0u32
    } else {
        (health - dmg) as u32
    }
}

/// The player's half of the turn: the records afterwards, the damage dealt
/// and whether a qi strike failed for want of qi.
pub open spec fn player_action_spec(p: Player, e: Enemy, action: CombatAction) -> (
    Player,
    Enemy,
    u32,
    bool,
) {
    match action {
        CombatAction::Attack => {
            let d = damage_amount(p.attack as int, e.defense as int);
            (p, Enemy { health: drain(e.health, d), ..e }, d as u32, false)
        },
        CombatAction::UseQi => {
            if p.qi >= QI_STRIKE_COST {
                let d = damage_amount(
                    p.cultivation_level as int * QI_STRIKE_MULT as int,
                    e.defense as int,
                );
                (
                    Player { qi: (p.qi - QI_STRIKE_COST) as u32, ..p },
                    Enemy { health: drain(e.health, d), ..e },
                    d as u32,
                    false,
                )
            } else {
                (p, e, 0u32, true)
            }
        },
        CombatAction::Defend => (p, e, 0u32, false),
    }
}

/// What a regular victory grants: the gold award, the bandit-quest counter
/// when the fallen enemy was a bandit, and — on a lucky pill roll — one qi
/// pill with its training-speed bonus.
pub open spec fn victory_rewards_spec(p: Player, e: Enemy, pill_roll: u32) -> Player {
    let p1 = Player { gold: (p.gold + VICTORY_GOLD) as u32, ..p };
    let p2 = if e.kind is Bandit {
        Player { bandits_defeated: (p1.bandits_defeated + 1) as u32, ..p1 }
    } else {
        p1
    };
    if pill_roll <= PILL_CHANCE_PERCENT {
        Player {
            qi_pills: (p2.qi_pills + 1) as u32,
            cultivation_speed_centis: (p2.cultivation_speed_centis + PILL_SPEED_BONUS_CENTIS)
                as u32,
            ..p2
        }
    } else {
        p2
    }
}

/// One whole turn. `enemy_roll` decides the surviving enemy's move (1 of 2:
/// attack; 2: brace); `pill_roll` decides the qi-pill find after a regular
/// victory (at most `PILL_CHANCE_PERCENT` of 100).
pub open spec fn turn_spec(
    p: Player,
    e: Enemy,
    action: CombatAction,
    enemy_roll: u32,
    pill_roll: u32,
) -> (Player, Enemy, TurnReport) {
    let (p1, e1, damage_to_enemy, insufficient_qi) = player_action_spec(p, e, action);
    if e1.health == 0 {
        let p2 = if e.is_boss {
            p1
        } else {
            victory_rewards_spec(p1, e, pill_roll)
        };
        (
            p2,
            e1,
            TurnReport {
                outcome: if e.is_boss {
                    TurnOutcome::BossDefeated
                } else {
                    TurnOutcome::PlayerVictory
                },
                damage_to_enemy,
                insufficient_qi,
                enemy_attacked: false,
                damage_to_player: 0u32,
                gold_awarded: if e.is_boss {
                    0u32
                } else {
                    VICTORY_GOLD
                },
                gained_qi_pill: !e.is_boss && pill_roll <= PILL_CHANCE_PERCENT,
            },
        )
    } else if enemy_roll == 1 {
        let d = damage_amount(e1.attack as int, p1.defense as int / 2);
        let p2 = Player { health: drain(p1.health, d), ..p1 };
        (
            p2,
            e1,
            TurnReport {
                outcome: if p2.health == 0 {
                    TurnOutcome::PlayerDefeat
                } else {
                    TurnOutcome::Ongoing
                },
                damage_to_enemy,
                insufficient_qi,
                enemy_attacked: true,
                damage_to_player: d as u32,
                gold_awarded: 0u32,
                gained_qi_pill: false,
            },
        )
    } else {
        (
            p1,
            e1,
            TurnReport {
                outcome: TurnOutcome::Ongoing,
                damage_to_enemy,
                insufficient_qi,
                enemy_attacked: false,
                damage_to_player: 0u32,
                gold_awarded: 0u32,
                gained_qi_pill: false,
            },
        )
    }
}

/// Law: every damage computation deals at least one point, however large
/// the defender's defense stands next to the attacker's attack.
pub proof fn lemma_damage_at_least_one(attack: int, defense: int)
    ensures
        damage_amount(attack, defense) >= 1,
{
}

/// What holds of every resolved turn, whatever the two dice showed: both
/// records stay well-formed, nothing but health, qi, gold and the reward
/// counters moves, and the outcome tells exactly whose health reached zero.
pub proof fn lemma_turn_spec_properties(
    p: Player,
    e: Enemy,
    action: CombatAction,
    enemy_roll: u32,
    pill_roll: u32,
)
    requires
        player_wf(p),
        enemy_wf(e),
        p.health > 0,
        e.health > 0,
        1 <= enemy_roll <= 2,
        1 <= pill_roll <= 100,
        p.gold + VICTORY_GOLD <= u32::MAX,
        p.bandits_defeated + 1 <= u32::MAX,
        p.qi_pills + 1 <= u32::MAX,
        p.cultivation_speed_centis + PILL_SPEED_BONUS_CENTIS <= u32::MAX,
    ensures
        ({
            let (p2, e2, rep) = turn_spec(p, e, action, enemy_roll, pill_roll);
            &&& player_wf(p2)
            &&& enemy_wf(e2)
            &&& p2.name == p.name
            &&& p2.class_type == p.class_type
            &&& p2.cultivation_level == p.cultivation_level
            &&& p2.attack == p.attack
            &&& p2.defense == p.defense
            &&& p2.gold >= p.gold
            &&& p2.health <= p.health
            &&& p2.qi <= p.qi
            &&& e2.name == e.name
            &&& e2.kind == e.kind
            &&& e2.is_boss == e.is_boss
            &&& e2.attack == e.attack
            &&& e2.defense == e.defense
            &&& e2.health <= e.health
            &&& ((rep.outcome is PlayerVictory || rep.outcome is BossDefeated) <==> e2.health == 0)
            &&& (rep.outcome is BossDefeated <==> e2.health == 0 && e.is_boss)
            &&& (rep.outcome is PlayerDefeat <==> p2.health == 0)
            &&& (rep.outcome is Ongoing <==> p2.health > 0 && e2.health > 0)
            &&& (action is Attack ==> rep.damage_to_enemy >= 1)
            &&& (action is UseQi && p.qi >= QI_STRIKE_COST ==> rep.damage_to_enemy >= 1
                && p2.qi == p.qi - QI_STRIKE_COST)
            &&& (rep.insufficient_qi <==> action is UseQi && p.qi < QI_STRIKE_COST)
            &&& (rep.enemy_attacked ==> rep.damage_to_player >= 1)
        }),
{
}

/// Resolves one turn from given dice: `enemy_roll` in 1..=2 picks the
/// surviving enemy's move, `pill_roll` in 1..=100 decides the qi-pill find.
/// The result is exactly `turn_spec` of the inputs.
pub fn resolve_turn_with(
    p: &mut Player,
    e: &mut Enemy,
    action: CombatAction,
    enemy_roll: u32,
    pill_roll: u32,
) -> (r: TurnReport)
    requires
        player_wf(*old(p)),
        enemy_wf(*old(e)),
        old(p).health > 0,
        old(e).health > 0,
        1 <= enemy_roll <= 2,
        1 <= pill_roll <= 100,
        old(p).gold + VICTORY_GOLD <= u32::MAX,
        old(p).bandits_defeated + 1 <= u32::MAX,
        old(p).qi_pills + 1 <= u32::MAX,
        old(p).cultivation_speed_centis + PILL_SPEED_BONUS_CENTIS <= u32::MAX,
    ensures
        *final(p) == turn_spec(*old(p), *old(e), action, enemy_roll, pill_roll).0,
        *final(e) == turn_spec(*old(p), *old(e), action, enemy_roll, pill_roll).1,
        r == turn_spec(*old(p), *old(e), action, enemy_roll, pill_roll).2,
{
    let mut damage_to_enemy: u32 = 0;
    let mut insufficient_qi: bool = false;
    match action {
        CombatAction::Attack => {
            let d: u32 = if p.attack > e.defense {
                p.attack - e.defense
            } else {
                1
            };
            damage_to_enemy = d;
            e.health = if d >= e.health {
                0
            } else {
                e.health - d
            };
        },
        CombatAction::UseQi => {
            if p.qi >= QI_STRIKE_COST {
                let raw: u32 = p.cultivation_level * QI_STRIKE_MULT;
                let d: u32 = if raw > e.defense {
                    raw - e.defense
                } else {
                    1
                };
                damage_to_enemy = d;
                e.health = if d >= e.health {
                    0
                } else {
                    e.health - d
                };
                p.qi = p.qi - QI_STRIKE_COST;
            } else {
                insufficient_qi = true;
            }
        },
        CombatAction::Defend => {},
    }
    if e.health == 0 {
        if e.is_boss {
            return TurnReport {
                outcome: TurnOutcome::BossDefeated,
                damage_to_enemy,
                insufficient_qi,
                enemy_attacked: false,
                damage_to_player: 0,
                gold_awarded: 0,
                gained_qi_pill: false,
            };
        }
        p.gold = p.gold + VICTORY_GOLD;
        if e.kind == EnemyKind::Bandit {
            p.bandits_defeated = p.bandits_defeated + 1;
        }
        let gained: bool = pill_roll <= PILL_CHANCE_PERCENT;
        if gained {
            p.qi_pills = p.qi_pills + 1;
            p.cultivation_speed_centis = p.cultivation_speed_centis + PILL_SPEED_BONUS_CENTIS;
        }
        return TurnReport {
            outcome: TurnOutcome::PlayerVictory,
            damage_to_enemy,
            insufficient_qi,
            enemy_attacked: false,
            damage_to_player: 0,
            gold_awarded: VICTORY_GOLD,
            gained_qi_pill: gained,
        };
    }
    if enemy_roll == 1 {
        let halved: u32 = p.defense / 2;
        let d: u32 = if e.attack > halved {
            e.attack - halved
        } else {
            1
        };
        p.health = if d >= p.health {
            0
        } else {
            p.health - d
        };
        let outcome = if p.health == 0 {
            TurnOutcome::PlayerDefeat
        } else {
            TurnOutcome::Ongoing
        };
        return TurnReport {
            outcome,
            damage_to_enemy,
            insufficient_qi,
            enemy_attacked: true,
            damage_to_player: d,
            gold_awarded: 0,
            gained_qi_pill: false,
        };
    }
    TurnReport {
        outcome: TurnOutcome::Ongoing,
        damage_to_enemy,
        insufficient_qi,
        enemy_attacked: false,
        damage_to_player: 0,
        gold_awarded: 0,
        gained_qi_pill: false,
    }
}

/// That a resolved turn is `turn_spec` of the old records under some pair
/// of in-range dice.
pub open spec fn turn_observed(
    p0: Player,
    e0: Enemy,
    action: CombatAction,
    enemy_roll: u32,
    pill_roll: u32,
    p1: Player,
    e1: Enemy,
    r: TurnReport,
) -> bool {
    &&& 1 <= enemy_roll <= 2
    &&& 1 <= pill_roll <= 100
    &&& p1 == turn_spec(p0, e0, action, enemy_roll, pill_roll).0
    &&& e1 == turn_spec(p0, e0, action, enemy_roll, pill_roll).1
    &&& r == turn_spec(p0, e0, action, enemy_roll, pill_roll).2
}

/// Resolves one turn, drawing the enemy's move and the qi-pill find from
/// the game's dice. The result is `turn_spec` of the inputs under some pair
/// of in-range dice; everything the dice cannot change is stated outright.
pub fn resolve_turn(p: &mut Player, e: &mut Enemy, action: CombatAction) -> (r: TurnReport)
    requires
        player_wf(*old(p)),
        enemy_wf(*old(e)),
        old(p).health > 0,
        old(e).health > 0,
        old(p).gold + VICTORY_GOLD <= u32::MAX,
        old(p).bandits_defeated + 1 <= u32::MAX,
        old(p).qi_pills + 1 <= u32::MAX,
        old(p).cultivation_speed_centis + PILL_SPEED_BONUS_CENTIS <= u32::MAX,
    ensures
        exists|enemy_roll: u32, pill_roll: u32|
            turn_observed(
                *old(p),
                *old(e),
                action,
                enemy_roll,
                pill_roll,
                *final(p),
                *final(e),
                r,
            ),
        player_wf(*final(p)),
        enemy_wf(*final(e)),
        final(p).name == old(p).name,
        final(p).class_type == old(p).class_type,
        final(p).cultivation_level == old(p).cultivation_level,
        final(p).attack == old(p).attack,
        final(p).defense == old(p).defense,
        final(p).gold >= old(p).gold,
        final(p).health <= old(p).health,
        final(p).qi <= old(p).qi,
        final(e).health <= old(e).health,
        final(e).kind == old(e).kind,
        final(e).is_boss == old(e).is_boss,
        ((r.outcome is PlayerVictory || r.outcome is BossDefeated) <==> final(e).health == 0),
        (r.outcome is BossDefeated <==> final(e).health == 0 && old(e).is_boss),
        (r.outcome is PlayerDefeat <==> final(p).health == 0),
        (r.outcome is Ongoing <==> final(p).health > 0 && final(e).health > 0),
        action is Attack ==> r.damage_to_enemy >= 1,
        r.insufficient_qi <==> action is UseQi && old(p).qi < QI_STRIKE_COST,
        r.enemy_attacked ==> r.damage_to_player >= 1,
{
    let enemy_roll: u32 = rng_range(1, 2);
    let pill_roll: u32 = rng_range(1, 100);
    proof {
        lemma_turn_spec_properties(*p, *e, action, enemy_roll, pill_roll);
    }
    let r = resolve_turn_with(p, e, action, enemy_roll, pill_roll);
    proof {
        assert(turn_observed(*old(p), *old(e), action, enemy_roll, pill_roll, *p, *e, r));
    }
    r
}

} // verus!
