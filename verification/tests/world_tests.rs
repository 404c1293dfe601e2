use cultivation_quest::encounter::{
    enemy_for_archetype, generate_boss, generate_encounter, EncounterOutcome, EnemyArchetype,
};
use cultivation_quest::entities::{create_player, ClassType, ConsoleBuffer, EnemyKind, Npc, Quest};
use cultivation_quest::village::{
    buy_gear, rest_at_village, talk_to_npc, DialogueResult, GearItem, PurchaseResult,
};

#[test]
fn class_base_stats() {
    let m = create_player(String::from("A"), ClassType::MartialArtist);
    assert_eq!((m.health, m.attack, m.defense, m.qi), (120, 18, 12, 5));
    let q = create_player(String::from("B"), ClassType::QiCultivator);
    assert_eq!((q.health, q.attack, q.defense, q.qi), (80, 8, 6, 25));
    let a = create_player(String::from("C"), ClassType::Assassin);
    assert_eq!((a.health, a.attack, a.defense, a.qi), (100, 15, 10, 10));
    assert_eq!(m.gold, 50);
    assert_eq!(m.cultivation_level, 1);
    assert_eq!(m.bandits_defeated, 0);
    assert_eq!(m.cultivation_speed_centis, 100);
    assert_eq!(m.qi_pills, 0);
    assert_eq!(m.name, "A");
}

#[test]
fn boss_is_fixed() {
    let b = generate_boss();
    assert_eq!(b.name, "Ancient Demon Lord");
    assert_eq!((b.health, b.attack, b.defense), (500, 30, 15));
    assert!(b.is_boss);
    assert_eq!(b.kind, EnemyKind::Boss);
}

#[test]
fn bandit_scales_with_level() {
    // at cultivation level 3: health 70, attack 13, defense 6 exactly
    let e = enemy_for_archetype(EnemyArchetype::Bandit, 3);
    assert_eq!((e.health, e.attack, e.defense), (70, 13, 6));
    assert_eq!(e.name, "Bandit");
    assert_eq!(e.kind, EnemyKind::Bandit);
    assert!(!e.is_boss);
}

#[test]
fn archetype_tables_at_level_one() {
    let b = enemy_for_archetype(EnemyArchetype::Bandit, 1);
    assert_eq!((b.health, b.attack, b.defense), (50, 9, 4));
    let r = enemy_for_archetype(EnemyArchetype::RogueCultivator, 1);
    assert_eq!((r.health, r.attack, r.defense), (75, 15, 7));
    assert_eq!(r.name, "Rogue Cultivator");
    let s = enemy_for_archetype(EnemyArchetype::ShadowAssassin, 1);
    assert_eq!((s.health, s.attack, s.defense), (62, 18, 6));
    assert_eq!(s.name, "Shadow Assassin");
}

#[test]
fn high_level_always_meets_the_boss() {
    let mut p = create_player(String::from("A"), ClassType::MartialArtist);
    p.cultivation_level = 5;
    for _ in 0..20 {
        match generate_encounter(&p) {
            EncounterOutcome::BossFight(e) => {
                assert!(e.is_boss);
                assert_eq!(e.health, 500);
            }
            other => panic!("expected the boss, got {:?}", other),
        }
    }
}

#[test]
fn low_level_never_meets_the_boss() {
    let p = create_player(String::from("A"), ClassType::MartialArtist);
    for _ in 0..50 {
        match generate_encounter(&p) {
            EncounterOutcome::BossFight(_) => panic!("boss before the threshold"),
            EncounterOutcome::EnemyEncounter(e) => {
                assert!(!e.is_boss);
                // scaled to level 1: one of the three archetype stat rows
                let stats = (e.health, e.attack, e.defense);
                assert!(
                    stats == (50, 9, 4) || stats == (75, 15, 7) || stats == (62, 18, 6),
                    "unexpected stats {:?}",
                    stats
                );
            }
            EncounterOutcome::NpcEncounter => {}
        }
    }
}

fn elder() -> Npc {
    Npc {
        name: String::from("Wise Elder"),
        quest: Quest {
            description: String::from(
                "Defeat 3 bandits to prove your worth as a martial artist.",
            ),
            reward: 100,
            completed: false,
        },
    }
}

#[test]
fn quest_in_progress_below_three_bandits() {
    let mut p = create_player(String::from("A"), ClassType::MartialArtist);
    p.bandits_defeated = 2;
    let mut npc = elder();
    match talk_to_npc(&mut p, &mut npc) {
        DialogueResult::InProgress(text) => {
            assert_eq!(text, "Defeat 3 bandits to prove your worth as a martial artist.");
        }
        other => panic!("expected an open quest, got {:?}", other),
    }
    assert!(!npc.quest.completed);
    assert_eq!(p.gold, 50);
}

#[test]
fn quest_completes_exactly_once_at_three_bandits() {
    let mut p = create_player(String::from("A"), ClassType::MartialArtist);
    p.bandits_defeated = 3;
    let mut npc = elder();
    match talk_to_npc(&mut p, &mut npc) {
        DialogueResult::Completed(reward) => assert_eq!(reward, 100),
        other => panic!("expected completion, got {:?}", other),
    }
    assert!(npc.quest.completed);
    assert_eq!(p.gold, 150);

    // a second talk acknowledges and grants nothing
    match talk_to_npc(&mut p, &mut npc) {
        DialogueResult::AlreadyCompleted => {}
        other => panic!("expected an acknowledgement, got {:?}", other),
    }
    assert!(npc.quest.completed);
    assert_eq!(p.gold, 150);
}

#[test]
fn gloves_purchase_is_atomic() {
    let mut p = create_player(String::from("A"), ClassType::MartialArtist);
    assert_eq!(p.gold, 50);
    let r = buy_gear(&mut p, GearItem::IronFistGloves);
    assert_eq!(r, PurchaseResult::Purchased);
    assert_eq!(p.gold, 20);
    assert_eq!(p.attack, 23);

    // 20 gold left: the gloves are out of reach and nothing moves
    let r2 = buy_gear(&mut p, GearItem::IronFistGloves);
    assert_eq!(r2, PurchaseResult::InsufficientFunds);
    assert_eq!(p.gold, 20);
    assert_eq!(p.attack, 23);
}

#[test]
fn necklace_purchase_is_atomic() {
    let mut p = create_player(String::from("A"), ClassType::QiCultivator);
    p.gold = 19;
    let before_qi = p.qi;
    let r = buy_gear(&mut p, GearItem::QiNecklace);
    assert_eq!(r, PurchaseResult::InsufficientFunds);
    assert_eq!(p.gold, 19);
    assert_eq!(p.qi, before_qi);

    p.gold = 20;
    let r2 = buy_gear(&mut p, GearItem::QiNecklace);
    assert_eq!(r2, PurchaseResult::Purchased);
    assert_eq!(p.gold, 0);
    assert_eq!(p.qi, before_qi + 10);
}

#[test]
fn rest_restores_the_flat_value() {
    let mut p = create_player(String::from("A"), ClassType::MartialArtist);
    p.health = 1;
    rest_at_village(&mut p);
    assert_eq!(p.health, 100);

    // deliberately flat: resting caps a martial artist below their base 120
    let mut fresh = create_player(String::from("B"), ClassType::MartialArtist);
    rest_at_village(&mut fresh);
    assert_eq!(fresh.health, 100);
}

#[test]
fn console_buffer_keeps_the_last_five() {
    let mut buf = ConsoleBuffer::new();
    assert!(buf.messages.is_empty());
    for i in 0..6 {
        buf.add_message(format!("message {}", i));
    }
    assert_eq!(buf.messages.len(), 5);
    assert_eq!(buf.messages[0], "message 1");
    assert_eq!(buf.messages[4], "message 5");
    buf.clear();
    assert!(buf.messages.is_empty());
}
