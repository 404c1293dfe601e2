use cultivation_quest::entities::{create_player, ClassType, Player};
use cultivation_quest::progression::{
    apply_training_tick, attempt_breakthrough, breakthrough_outcome, qi_requirement,
    success_chance_percent, BreakthroughResult,
};

fn cultivator_at(level: u32, qi: u32) -> Player {
    let mut p = create_player(String::from("Mei"), ClassType::QiCultivator);
    p.cultivation_level = level;
    p.qi = qi;
    p
}

#[test]
fn requirement_table() {
    assert_eq!(qi_requirement(1), 100);
    assert_eq!(qi_requirement(2), 300);
    assert_eq!(qi_requirement(3), 900);
    assert_eq!(qi_requirement(4), 2000);
    assert_eq!(qi_requirement(5), 5000);
    assert_eq!(qi_requirement(6), 10000);
    assert_eq!(qi_requirement(7), u32::MAX);
}

#[test]
fn chance_table() {
    assert_eq!(success_chance_percent(1), 90);
    assert_eq!(success_chance_percent(2), 70);
    assert_eq!(success_chance_percent(3), 50);
    assert_eq!(success_chance_percent(4), 40);
    assert_eq!(success_chance_percent(5), 30);
    assert_eq!(success_chance_percent(6), 10);
    assert_eq!(success_chance_percent(7), 0);
}

#[test]
fn success_at_level_one_resets_qi() {
    // qi = 150 at level 1: the last winning roll (90) levels up to 2, qi 0
    let mut p = cultivator_at(1, 150);
    let r = breakthrough_outcome(&mut p, true, 90);
    assert_eq!(r, BreakthroughResult::LeveledUp(2));
    assert_eq!(p.cultivation_level, 2);
    assert_eq!(p.qi, 0);
}

#[test]
fn failure_at_level_one_burns_a_third() {
    // qi = 150 at level 1: the first losing roll (91) burns 30% = 45 qi
    let mut p = cultivator_at(1, 150);
    let r = breakthrough_outcome(&mut p, true, 91);
    assert_eq!(r, BreakthroughResult::FailedRetryable(45));
    assert_eq!(p.cultivation_level, 1);
    assert_eq!(p.qi, 105);
}

#[test]
fn qi_gate_boundary() {
    // qi exactly at the requirement is enough
    let mut at = cultivator_at(1, 100);
    let r = breakthrough_outcome(&mut at, true, 100);
    assert_ne!(r, BreakthroughResult::InsufficientQi);

    // one below fails it, and nothing changes
    let mut below = cultivator_at(1, 99);
    let r2 = breakthrough_outcome(&mut below, true, 1);
    assert_eq!(r2, BreakthroughResult::InsufficientQi);
    assert_eq!(below.cultivation_level, 1);
    assert_eq!(below.qi, 99);
}

#[test]
fn declining_changes_nothing() {
    let mut p = cultivator_at(3, 1000);
    let r = breakthrough_outcome(&mut p, false, 1);
    assert_eq!(r, BreakthroughResult::Declined);
    assert_eq!(p.cultivation_level, 3);
    assert_eq!(p.qi, 1000);
}

#[test]
fn ascension_failure_is_always_fatal() {
    // every losing roll at level 5 is fatal, never retryable
    for roll in 31..=100 {
        let mut p = cultivator_at(5, 5000);
        let r = breakthrough_outcome(&mut p, true, roll);
        assert_eq!(r, BreakthroughResult::FatalFailure);
        assert_eq!(p.cultivation_level, 5);
        assert_eq!(p.qi, 5000);
    }
}

#[test]
fn ascension_success_wins_the_game() {
    let mut p = cultivator_at(5, 5000);
    let r = breakthrough_outcome(&mut p, true, 30);
    assert_eq!(r, BreakthroughResult::Ascended);
    assert_eq!(p.cultivation_level, 6);
    assert_eq!(p.qi, 0);
}

#[test]
fn level_never_decreases_across_attempts() {
    let mut p = cultivator_at(1, 100000);
    let mut last = p.cultivation_level;
    for roll in 1..=100 {
        let _ = breakthrough_outcome(&mut p, true, roll);
        assert!(p.cultivation_level >= last);
        last = p.cultivation_level;
        p.qi = 100000;
    }
}

#[test]
fn random_attempt_respects_gate_and_consent() {
    let mut p = cultivator_at(2, 299);
    let r = attempt_breakthrough(&mut p, true);
    assert_eq!(r, BreakthroughResult::InsufficientQi);
    assert_eq!(p.qi, 299);

    let r2 = attempt_breakthrough(&mut p, false);
    assert_eq!(r2, BreakthroughResult::Declined);

    // with enough qi, the die decides between exactly two outcomes
    let mut q = cultivator_at(1, 100);
    let r3 = attempt_breakthrough(&mut q, true);
    match r3 {
        BreakthroughResult::LeveledUp(2) => {
            assert_eq!(q.cultivation_level, 2);
            assert_eq!(q.qi, 0);
        }
        BreakthroughResult::FailedRetryable(30) => {
            assert_eq!(q.cultivation_level, 1);
            assert_eq!(q.qi, 70);
        }
        other => panic!("unexpected outcome: {:?}", other),
    }
}

#[test]
fn training_tick_rounds_the_multiplier() {
    // base speed 1.00 -> 1 qi per tick
    let mut p = create_player(String::from("Mei"), ClassType::Assassin);
    assert_eq!(p.qi, 10);
    apply_training_tick(&mut p);
    assert_eq!(p.qi, 11);

    // speed 1.50 rounds to 2
    p.cultivation_speed_centis = 150;
    apply_training_tick(&mut p);
    assert_eq!(p.qi, 13);

    // speed 1.49 rounds to 1
    p.cultivation_speed_centis = 149;
    apply_training_tick(&mut p);
    assert_eq!(p.qi, 14);
}
