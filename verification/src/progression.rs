//! The progression engine: qi training ticks and breakthrough attempts.
//! A breakthrough is gated by a level-dependent qi requirement, succeeds
//! with a level-dependent chance, and is a risk: a failure on the step to
//! immortality is fatal, any other failure burns part of the stored qi.

use vstd::prelude::*;
use crate::entities::{Player, player_wf};
use crate::rng::rng_range;

verus! {

/// The cultivation level whose breakthrough leads to immortality; reaching
/// the next level wins the game, failing the attempt is fatal.
pub const ASCENSION_LEVEL: u32 = 5;

/// The level a successful ascension lands on: the game-winning tier.
pub const IMMORTAL_LEVEL: u32 = 6;

/// Share of the stored qi burnt by an ordinary failed breakthrough, in
/// percent.
pub const FAILURE_QI_LOSS_PERCENT: u32 = 30;

/// Qi a breakthrough from the given level requires. Levels past the table
/// are unreachable: no qi amount short of the type's maximum opens them.
pub open spec fn qi_required(level: u32) -> u32 {
    if level == 1 {
        100u32
    } else if level == 2 {
        300u32
    } else if level == 3 {
        900u32
    } else if level == 4 {
        2000u32
    } else if level == 5 {
        5000u32
    } else if level == 6 {
        10000u32
    } else {
        u32::MAX
    }
}

/// Success chance of a breakthrough from the given level, in percent.
/// Levels past the table never succeed.
pub open spec fn success_percent(level: u32) -> u32 {
    if level == 1 {
        90u32
    } else if level == 2 {
        70u32
    } else if level == 3 {
        50u32
    } else if level == 4 {
        40u32
    } else if level == 5 {
        30u32
    } else if level == 6 {
        10u32
    } else {
        0u32
    }
}

/// The tabled qi requirement, for a front end to show before asking the
/// player to proceed.
pub fn qi_requirement(level: u32) -> (r: u32)
    ensures
        r == qi_required(level),
{
    match level {
        1 => 100,
        2 => 300,
        3 => 900,
        4 => 2000,
        5 => 5000,
        6 => 10000,
        _ => u32::MAX,
    }
}

/// The tabled success chance in percent, for a front end to show.
pub fn success_chance_percent(level: u32) -> (r: u32)
    ensures
        r == success_percent(level),
{
    match level {
        1 => 90,
        2 => 70,
        3 => 50,
        4 => 40,
        5 => 30,
        6 => 10,
        _ => 0,
    }
}

/// How a breakthrough attempt ended. `Ascended` and `FatalFailure` are
/// terminal: the first wins the game, the second ends it in death.
#[derive(Clone, Copy, Debug, PartialEq, Eq, Structural)]
pub enum BreakthroughResult {
    /// The player chose not to attempt; nothing changed.
    Declined,
    /// Less qi stored than the level requires; nothing changed.
    InsufficientQi,
    /// The step onto the immortal tier succeeded: the game is won.
    Ascended,
    /// An ordinary success; carries the new cultivation level.
    LeveledUp(u32),
    /// The attempt to reach immortality failed: death, nothing changed.
    FatalFailure,
    /// An ordinary failure; carries the qi burnt by it.
    FailedRetryable(u32),
}

/// Qi burnt by an ordinary failed breakthrough: the loss share of the
/// stored qi, rounded down.
pub open spec fn failure_qi_loss(qi: u32) -> u32 {
    ((qi * FAILURE_QI_LOSS_PERCENT) / 100) as u32
}

/// One breakthrough attempt as a function of the player, their consent and
/// the success die (1..=100; at most `success_percent` of the level is a
/// success). Consent and the qi gate are checked first and leave the
/// record unchanged; a success raises the level by one and resets qi to
/// zero; a failure from `ASCENSION_LEVEL` is fatal and changes nothing; any
/// other failure burns `failure_qi_loss` of the stored qi.
pub open spec fn breakthrough_spec(p: Player, proceed: bool, roll: u32) -> (
    Player,
    BreakthroughResult,
) {
    if !proceed {
        (p, BreakthroughResult::Declined)
    } else if p.qi < qi_required(p.cultivation_level) {
        (p, BreakthroughResult::InsufficientQi)
    } else if roll <= success_percent(p.cultivation_level) {
        let p2 = Player { cultivation_level: (p.cultivation_level + 1) as u32, qi: 0u32, ..p };
        if p2.cultivation_level == IMMORTAL_LEVEL {
            (p2, BreakthroughResult::Ascended)
        } else {
            (p2, BreakthroughResult::LeveledUp(p2.cultivation_level))
        }
    } else if p.cultivation_level == ASCENSION_LEVEL {
        (p, BreakthroughResult::FatalFailure)
    } else {
        let lost = failure_qi_loss(p.qi);
        (Player { qi: (p.qi - lost) as u32, ..p }, BreakthroughResult::FailedRetryable(lost))
    }
}

/// Law: the qi gate of a breakthrough sits exactly at the tabled
/// requirement — qi equal to it is enough, one point below is not.
pub proof fn lemma_qi_gate_boundary(p: Player, roll: u32)
    ensures
        breakthrough_spec(p, true, roll).1 is InsufficientQi <==> p.qi < qi_required(
            p.cultivation_level,
        ),
        p.qi == qi_required(p.cultivation_level) ==> !(breakthrough_spec(
            p,
            true,
            roll,
        ).1 is InsufficientQi),
{
}

/// Law: a failed attempt from the ascension level is always fatal, never
/// retryable.
pub proof fn lemma_ascension_failure_fatal(p: Player, roll: u32)
    requires
        p.cultivation_level == ASCENSION_LEVEL,
        p.qi >= qi_required(ASCENSION_LEVEL),
        roll > success_percent(ASCENSION_LEVEL),
    ensures
        breakthrough_spec(p, true, roll).1 is FatalFailure,
{
}

/// What holds of every attempt, whatever the die showed: the record stays
/// well-formed, the level never falls, rises by at most one and only
/// together with a qi reset, and nothing outside level and qi moves.
pub proof fn lemma_breakthrough_properties(p: Player, proceed: bool, roll: u32)
    requires
        player_wf(p),
        1 <= roll <= 100,
    ensures
        ({
            let (p2, res) = breakthrough_spec(p, proceed, roll);
            &&& player_wf(p2)
            &&& p2.cultivation_level >= p.cultivation_level
            &&& p2.cultivation_level <= p.cultivation_level + 1
            &&& p2.qi <= p.qi
            &&& p2.name == p.name
            &&& p2.class_type == p.class_type
            &&& p2.health == p.health
            &&& p2.attack == p.attack
            &&& p2.defense == p.defense
            &&& p2.gold == p.gold
            &&& p2.bandits_defeated == p.bandits_defeated
            &&& p2.cultivation_speed_centis == p.cultivation_speed_centis
            &&& p2.qi_pills == p.qi_pills
            &&& ((res is Ascended || res matches BreakthroughResult::LeveledUp(_))
                <==> p2.cultivation_level == p.cultivation_level + 1)
            &&& (p2.cultivation_level > p.cultivation_level ==> p2.qi == 0)
            &&& (res is Declined <==> !proceed)
            &&& (res is InsufficientQi <==> proceed && p.qi < qi_required(p.cultivation_level))
            &&& (res is Declined || res is InsufficientQi || res is FatalFailure ==> p2 == p)
            &&& (res is FatalFailure ==> p.cultivation_level == ASCENSION_LEVEL)
        }),
{
}

/// Runs a sequence of breakthrough attempts, each a consent flag with its
/// success die, from the given record.
pub open spec fn run_breakthroughs(p: Player, attempts: Seq<(bool, u32)>) -> Player
    decreases attempts.len(),
{
    if attempts.len() == 0 {
        p
    } else {
        run_breakthroughs(
            breakthrough_spec(p, attempts[0].0, attempts[0].1).0,
            attempts.drop_first(),
        )
    }
}

/// That every success die of a sequence of attempts is in range.
pub open spec fn attempts_valid(attempts: Seq<(bool, u32)>) -> bool {
    forall|i: int| 0 <= i < attempts.len() ==> 1 <= (#[trigger] attempts[i]).1 <= 100
}

/// Law: the cultivation level never decreases across any sequence of
/// breakthrough attempts.
pub proof fn lemma_level_monotone(p: Player, attempts: Seq<(bool, u32)>)
    requires
        player_wf(p),
        attempts_valid(attempts),
    ensures
        run_breakthroughs(p, attempts).cultivation_level >= p.cultivation_level,
        player_wf(run_breakthroughs(p, attempts)),
    decreases attempts.len(),
{
    if attempts.len() > 0 {
        lemma_breakthrough_properties(p, attempts[0].0, attempts[0].1);
        let p1 = breakthrough_spec(p, attempts[0].0, attempts[0].1).0;
        assert forall|i: int|
            0 <= i < attempts.drop_first().len() implies 1 <= (#[trigger] attempts.drop_first()[i]).1
            <= 100 by {
            assert(attempts.drop_first()[i] == attempts[i + 1]);
        }
        lemma_level_monotone(p1, attempts.drop_first());
    }
}

/// Performs one breakthrough attempt from a given success die (1..=100).
/// The result is exactly `breakthrough_spec` of the inputs.
pub fn breakthrough_outcome(p: &mut Player, proceed: bool, roll: u32) -> (r: BreakthroughResult)
    requires
        player_wf(*old(p)),
        1 <= roll <= 100,
    ensures
        *final(p) == breakthrough_spec(*old(p), proceed, roll).0,
        r == breakthrough_spec(*old(p), proceed, roll).1,
        player_wf(*final(p)),
        final(p).cultivation_level >= old(p).cultivation_level,
{
    proof {
        lemma_breakthrough_properties(*p, proceed, roll);
    }
    if !proceed {
        return BreakthroughResult::Declined;
    }
    let required: u32 = qi_requirement(p.cultivation_level);
    if p.qi < required {
        return BreakthroughResult::InsufficientQi;
    }
    if roll <= success_chance_percent(p.cultivation_level) {
        p.cultivation_level = p.cultivation_level + 1;
        p.qi = 0;
        if p.cultivation_level == IMMORTAL_LEVEL {
            BreakthroughResult::Ascended
        } else {
            BreakthroughResult::LeveledUp(p.cultivation_level)
        }
    } else if p.cultivation_level == ASCENSION_LEVEL {
        BreakthroughResult::FatalFailure
    } else {
        let lost: u32 = ((p.qi as u64 * FAILURE_QI_LOSS_PERCENT as u64) / 100) as u32;
        p.qi = p.qi - lost;
        BreakthroughResult::FailedRetryable(lost)
    }
}

/// That a breakthrough attempt is `breakthrough_spec` of the old record
/// under some in-range success die.
pub open spec fn breakthrough_observed(
    p0: Player,
    proceed: bool,
    roll: u32,
    p1: Player,
    r: BreakthroughResult,
) -> bool {
    &&& 1 <= roll <= 100
    &&& p1 == breakthrough_spec(p0, proceed, roll).0
    &&& r == breakthrough_spec(p0, proceed, roll).1
}

/// One breakthrough attempt with the game's own success die. The result is
/// `breakthrough_spec` of the inputs under some in-range die; everything
/// the die cannot change is stated outright.
pub fn attempt_breakthrough(p: &mut Player, proceed: bool) -> (r: BreakthroughResult)
    requires
        player_wf(*old(p)),
    ensures
        exists|roll: u32| breakthrough_observed(*old(p), proceed, roll, *final(p), r),
        player_wf(*final(p)),
        final(p).cultivation_level >= old(p).cultivation_level,
        final(p).cultivation_level <= old(p).cultivation_level + 1,
        final(p).qi <= old(p).qi,
        final(p).gold == old(p).gold,
        final(p).health == old(p).health,
        final(p).attack == old(p).attack,
        final(p).defense == old(p).defense,
        !proceed ==> *final(p) == *old(p) && r is Declined,
        r is Declined ==> !proceed,
        proceed && old(p).qi < qi_required(old(p).cultivation_level) ==> *final(p) == *old(p)
            && r is InsufficientQi,
        r is InsufficientQi ==> old(p).qi < qi_required(old(p).cultivation_level),
        (r is Ascended || r matches BreakthroughResult::LeveledUp(_)) <==> final(p).cultivation_level
            == old(p).cultivation_level + 1,
        final(p).cultivation_level > old(p).cultivation_level ==> final(p).qi == 0,
        r is FatalFailure ==> old(p).cultivation_level == ASCENSION_LEVEL && *final(p) == *old(p),
{
    let roll: u32 = rng_range(1, 100);
    proof {
        lemma_breakthrough_properties(*p, proceed, roll);
    }
    let r = breakthrough_outcome(p, proceed, roll);
    proof {
        assert(breakthrough_observed(*old(p), proceed, roll, *p, r));
    }
    r
}

/// Qi one training tick yields: the multiplier (kept in hundredths),
/// rounded to the nearest whole point — at least one under a well-formed
/// record.
pub open spec fn training_tick_amount(speed_centis: u32) -> int {
    (speed_centis + 50) / 100
}

/// One tick of qi training: adds the rounded multiplier to the stored qi.
/// The pacing of ticks is the front end's concern.
pub fn apply_training_tick(p: &mut Player)
    requires
        player_wf(*old(p)),
        old(p).qi + training_tick_amount(old(p).cultivation_speed_centis) <= u32::MAX,
    ensures
        final(p).qi == old(p).qi + training_tick_amount(old(p).cultivation_speed_centis),
        final(p).qi > old(p).qi,
        *final(p) == (Player { qi: final(p).qi, ..*old(p) }),
        player_wf(*final(p)),
{
    let tick: u32 = (((p.cultivation_speed_centis as u64) + 50) / 100) as u32;
    p.qi = p.qi + tick;
}

} // verus!
