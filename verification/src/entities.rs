//! Passive data records of the game: the player character, enemies,
//! quests and their holders, and the rolling message buffer that a front
//! end displays.

use vstd::prelude::*;

verus! {

/// The highest cultivation level a player can ever hold. Level 6 is the
/// game-winning "immortal" tier; a breakthrough attempted there can still
/// raise the counter once more, after which no further requirement is
/// satisfiable, so the level never passes this bound.
pub const MAX_CULTIVATION_LEVEL: u32 = 7;

/// The qi-gain multiplier is kept in hundredths; this is the starting
/// value, a multiplier of one.
pub const BASE_SPEED_CENTIS: u32 = 100;

/// Gold every freshly created character starts with.
pub const STARTING_GOLD: u32 = 50;

/// The character class, fixed at creation; it decides the base stats.
#[derive(Clone, Copy, Debug, PartialEq, Eq, Structural)]
pub enum ClassType {
    MartialArtist,
    QiCultivator,
    Assassin,
}

/// The player character. All quantities are non-negative by type; health
/// of zero is the terminal "defeated" state.
#[derive(Debug)]
pub struct Player {
    pub name: String,
    pub class_type: ClassType,
    pub health: u32,
    pub attack: u32,
    pub defense: u32,
    pub qi: u32,
    pub cultivation_level: u32,
    pub gold: u32,
    pub bandits_defeated: u32,
    /// Multiplier on qi gained per training tick, in hundredths
    /// (100 means a multiplier of one; each qi pill adds 5).
    pub cultivation_speed_centis: u32,
    pub qi_pills: u32,
}

/// Well-formedness of a player record: the cultivation level stays within
/// its reachable band and the training multiplier never falls under one.
/// Constructors establish it and every engine operation preserves it.
pub open spec fn player_wf(p: Player) -> bool {
    &&& 1 <= p.cultivation_level <= MAX_CULTIVATION_LEVEL
    &&& p.cultivation_speed_centis >= BASE_SPEED_CENTIS
}

pub open spec fn class_base_health(c: ClassType) -> u32 {
    match c {
        ClassType::MartialArtist => 120u32,
        ClassType::QiCultivator => 80u32,
        ClassType::Assassin => 100u32,
    }
}

pub open spec fn class_base_attack(c: ClassType) -> u32 {
    match c {
        ClassType::MartialArtist => 18u32,
        ClassType::QiCultivator => 8u32,
        ClassType::Assassin => 15u32,
    }
}

pub open spec fn class_base_defense(c: ClassType) -> u32 {
    match c {
        ClassType::MartialArtist => 12u32,
        ClassType::QiCultivator => 6u32,
        ClassType::Assassin => 10u32,
    }
}

pub open spec fn class_base_qi(c: ClassType) -> u32 {
    match c {
        ClassType::MartialArtist => 5u32,
        ClassType::QiCultivator => 25u32,
        ClassType::Assassin => 10u32,
    }
}

/// Creates a fresh character of the chosen class with the tabled base
/// stats, level 1, starting gold, and no progress counters.
pub fn create_player(name: String, class_type: ClassType) -> (p: Player)
    ensures
        p.name == name,
        p.class_type == class_type,
        p.health == class_base_health(class_type),
        p.attack == class_base_attack(class_type),
        p.defense == class_base_defense(class_type),
        p.qi == class_base_qi(class_type),
        p.cultivation_level == 1,
        p.gold == STARTING_GOLD,
        p.bandits_defeated == 0,
        p.cultivation_speed_centis == BASE_SPEED_CENTIS,
        p.qi_pills == 0,
        player_wf(p),
{
    let (health, attack, defense, qi): (u32, u32, u32, u32) = match class_type {
        ClassType::MartialArtist => (120, 18, 12, 5),
        ClassType::QiCultivator => (80, 8, 6, 25),
        ClassType::Assassin => (100, 15, 10, 10),
    };
    Player {
        name,
        class_type,
        health,
        attack,
        defense,
        qi,
        cultivation_level: 1,
        gold: STARTING_GOLD,
        bandits_defeated: 0,
        cultivation_speed_centis: BASE_SPEED_CENTIS,
        qi_pills: 0,
    }
}

/// What sort of opponent an enemy record is; decides the bandit-quest
/// counter and the boss-defeat handling.
#[derive(Clone, Copy, Debug, PartialEq, Eq, Structural)]
pub enum EnemyKind {
    Bandit,
    RogueCultivator,
    ShadowAssassin,
    Boss,
}

/// An opponent, created fresh for each encounter and discarded after it.
/// Health of zero is the terminal "defeated" state.
#[derive(Debug)]
pub struct Enemy {
    pub name: String,
    pub kind: EnemyKind,
    pub health: u32,
    pub attack: u32,
    pub defense: u32,
    pub is_boss: bool,
}

/// Well-formedness of an enemy record: the boss flag agrees with the kind.
pub open spec fn enemy_wf(e: Enemy) -> bool {
    e.is_boss <==> e.kind is Boss
}

/// A task an NPC hands out; `completed` only ever moves from false to true.
#[derive(Debug)]
pub struct Quest {
    pub description: String,
    pub reward: u32,
    pub completed: bool,
}

/// A quest-giving character, long-lived for the session.
#[derive(Debug)]
pub struct Npc {
    pub name: String,
    pub quest: Quest,
}

/// How many messages the rolling buffer keeps before the oldest is dropped.
pub const BUFFER_SIZE: usize = 5;

/// A bounded queue of the most recent messages; a front end reads
/// `messages` to draw them, oldest first.
#[derive(Debug)]
pub struct ConsoleBuffer {
    pub messages: Vec<String>,
}

impl ConsoleBuffer {
    /// An empty buffer.
    pub fn new() -> (r: ConsoleBuffer)
        ensures
            r.messages@.len() == 0,
    {
        ConsoleBuffer { messages: Vec::new() }
    }

    /// Appends a message; when the buffer is already full, the oldest
    /// message falls out first, so at most `BUFFER_SIZE` are kept.
    pub fn add_message(&mut self, message: String)
        ensures
            old(self).messages@.len() < BUFFER_SIZE ==> final(self).messages@ == old(
                self,
            ).messages@.push(message),
            old(self).messages@.len() >= BUFFER_SIZE ==> final(self).messages@ == old(
                self,
            ).messages@.subrange(1, old(self).messages@.len() as int).push(message),
            old(self).messages@.len() <= BUFFER_SIZE ==> final(self).messages@.len()
                <= BUFFER_SIZE,
    {
        if self.messages.len() >= BUFFER_SIZE {
            self.messages.remove(0);
            proof {
                assert(self.messages@ =~= old(self).messages@.subrange(
                    1,
                    old(self).messages@.len() as int,
                ));
            }
        }
        self.messages.push(message);
    }

    /// Empties the buffer.
    pub fn clear(&mut self)
        ensures
            final(self).messages@.len() == 0,
    {
        self.messages.clear();
    }
}

} // verus!
