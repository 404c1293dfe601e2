//! Village actions: resting, gear purchases and quest dialogue with an
//! NPC. A purchase is atomic — gold and the granted stat move together or
//! not at all — and a quest's completion flag moves from false to true
//! exactly once, when its bandit count is reached.

use vstd::prelude::*;
use crate::entities::{Player, Npc, Quest};

verus! {

/// Bandits to defeat before the sole quest is fulfilled.
pub const QUEST_BANDITS_REQUIRED: u32 = 3;

/// Health a rest at the village restores to — a flat value, deliberately
/// not scaled to the class's own maximum (a known quirk, kept on purpose).
pub const REST_HEALTH: u32 = 100;

pub const GLOVES_COST: u32 = 30;

pub const GLOVES_ATTACK_BONUS: u32 = 5;

pub const NECKLACE_COST: u32 = 20;

pub const NECKLACE_QI_BONUS: u32 = 10;

/// The two purchasable gear upgrades.
#[derive(Clone, Copy, Debug, PartialEq, Eq, Structural)]
pub enum GearItem {
    /// Raises attack by `GLOVES_ATTACK_BONUS` for `GLOVES_COST` gold.
    IronFistGloves,
    /// Raises qi by `NECKLACE_QI_BONUS` for `NECKLACE_COST` gold.
    QiNecklace,
}

/// Whether a purchase went through.
#[derive(Clone, Copy, Debug, PartialEq, Eq, Structural)]
pub enum PurchaseResult {
    Purchased,
    InsufficientFunds,
}

/// How a talk with an NPC ended.
#[derive(Debug)]
pub enum DialogueResult {
    /// The quest was just fulfilled; carries the gold reward granted.
    Completed(u32),
    /// The quest is still open; carries its description.
    InProgress(String),
    /// The quest had already been completed earlier.
    AlreadyCompleted,
}

pub open spec fn item_price(item: GearItem) -> u32 {
    match item {
        GearItem::IronFistGloves => GLOVES_COST,
        GearItem::QiNecklace => NECKLACE_COST,
    }
}

/// A purchase as a function of the record and the item: with enough gold
/// the price is deducted and the stat granted in one step, otherwise
/// nothing changes.
pub open spec fn buy_spec(p: Player, item: GearItem) -> (Player, PurchaseResult) {
    match item {
        GearItem::IronFistGloves => if p.gold >= GLOVES_COST {
            (
                Player {
                    gold: (p.gold - GLOVES_COST) as u32,
                    attack: (p.attack + GLOVES_ATTACK_BONUS) as u32,
                    ..p
                },
                PurchaseResult::Purchased,
            )
        } else {
            (p, PurchaseResult::InsufficientFunds)
        },
        GearItem::QiNecklace => if p.gold >= NECKLACE_COST {
            (
                Player {
                    gold: (p.gold - NECKLACE_COST) as u32,
                    qi: (p.qi + NECKLACE_QI_BONUS) as u32,
                    ..p
                },
                PurchaseResult::Purchased,
            )
        } else {
            (p, PurchaseResult::InsufficientFunds)
        },
    }
}

/// Law: a gear purchase is atomic. It goes through exactly when the gold
/// covers the price; then gold falls by the exact price and the item's
/// stat rises by its exact bonus, and nothing else moves. Otherwise the
/// record is untouched — never a partial update.
pub proof fn lemma_purchase_atomic(p: Player, item: GearItem)
    requires
        p.attack + GLOVES_ATTACK_BONUS <= u32::MAX,
        p.qi + NECKLACE_QI_BONUS <= u32::MAX,
    ensures
        ({
            let (p2, r) = buy_spec(p, item);
            &&& (r is Purchased <==> p.gold >= item_price(item))
            &&& (r is Purchased ==> p2.gold == p.gold - item_price(item))
            &&& (r is InsufficientFunds ==> p2 == p)
            &&& (item is IronFistGloves && r is Purchased ==> p2 == (Player {
                gold: (p.gold - GLOVES_COST) as u32,
                attack: (p.attack + GLOVES_ATTACK_BONUS) as u32,
                ..p
            }))
            &&& (item is QiNecklace && r is Purchased ==> p2 == (Player {
                gold: (p.gold - NECKLACE_COST) as u32,
                qi: (p.qi + NECKLACE_QI_BONUS) as u32,
                ..p
            }))
        }),
{
}

/// Buys a gear upgrade. The result is exactly `buy_spec` of the inputs:
/// price and stat move together, or the purchase fails and nothing moves.
pub fn buy_gear(p: &mut Player, item: GearItem) -> (r: PurchaseResult)
    requires
        old(p).attack + GLOVES_ATTACK_BONUS <= u32::MAX,
        old(p).qi + NECKLACE_QI_BONUS <= u32::MAX,
    ensures
        *final(p) == buy_spec(*old(p), item).0,
        r == buy_spec(*old(p), item).1,
        r is Purchased <==> old(p).gold >= item_price(item),
        r is InsufficientFunds ==> *final(p) == *old(p),
{
    match item {
        GearItem::IronFistGloves => {
            if p.gold >= GLOVES_COST {
                p.gold = p.gold - GLOVES_COST;
                p.attack = p.attack + GLOVES_ATTACK_BONUS;
                PurchaseResult::Purchased
            } else {
                PurchaseResult::InsufficientFunds
            }
        },
        GearItem::QiNecklace => {
            if p.gold >= NECKLACE_COST {
                p.gold = p.gold - NECKLACE_COST;
                p.qi = p.qi + NECKLACE_QI_BONUS;
                PurchaseResult::Purchased
            } else {
                PurchaseResult::InsufficientFunds
            }
        },
    }
}

/// Sets health to the flat rest value, whatever it was before; nothing
/// else moves.
pub fn rest_at_village(p: &mut Player)
    ensures
        *final(p) == (Player { health: REST_HEALTH, ..*old(p) }),
        final(p).health == REST_HEALTH,
{
    p.health = REST_HEALTH;
}

/// A talk with the NPC as a function of the two records: a completed
/// quest only acknowledges; an open quest with the bandit count reached
/// completes, pays its reward and never reopens; otherwise the quest's
/// description is repeated.
pub open spec fn talk_spec(p: Player, npc: Npc) -> (Player, Npc, DialogueResult) {
    if npc.quest.completed {
        (p, npc, DialogueResult::AlreadyCompleted)
    } else if p.bandits_defeated >= QUEST_BANDITS_REQUIRED {
        (
            Player { gold: (p.gold + npc.quest.reward) as u32, ..p },
            Npc { quest: Quest { completed: true, ..npc.quest }, ..npc },
            DialogueResult::Completed(npc.quest.reward),
        )
    } else {
        (p, npc, DialogueResult::InProgress(npc.quest.description))
    }
}

/// Law: the quest's completed flag never reverts, and it turns true
/// exactly when the bandit count is reached while the quest is open;
/// the reward is granted on exactly that talk.
pub proof fn lemma_quest_completion(p: Player, npc: Npc)
    requires
        p.gold + npc.quest.reward <= u32::MAX,
    ensures
        ({
            let (p2, n2, r) = talk_spec(p, npc);
            &&& n2.quest.completed == (npc.quest.completed || p.bandits_defeated
                >= QUEST_BANDITS_REQUIRED)
            &&& (npc.quest.completed ==> n2.quest.completed)
            &&& ((r matches DialogueResult::Completed(g) && g == npc.quest.reward)
                <==> !npc.quest.completed && p.bandits_defeated >= QUEST_BANDITS_REQUIRED)
            &&& (r is Completed ==> p2.gold == p.gold + npc.quest.reward)
            &&& (!(r is Completed) ==> p2 == p && n2 == npc)
        }),
{
}

/// Law: the quest completes exactly once — after the talk that completed
/// it, every further talk only acknowledges and changes nothing.
pub proof fn lemma_quest_completes_once(p: Player, npc: Npc)
    ensures
        ({
            let (p1, n1, r1) = talk_spec(p, npc);
            let (p2, n2, r2) = talk_spec(p1, n1);
            r1 is Completed ==> r2 is AlreadyCompleted && p2 == p1 && n2 == n1
        }),
{
}

/// Talks to the NPC. The result is exactly `talk_spec` of the two
/// records: the quest completes and pays out exactly once, when its
/// bandit count is reached.
pub fn talk_to_npc(p: &mut Player, npc: &mut Npc) -> (r: DialogueResult)
    requires
        old(p).gold + old(npc).quest.reward <= u32::MAX,
    ensures
        *final(p) == talk_spec(*old(p), *old(npc)).0,
        *final(npc) == talk_spec(*old(p), *old(npc)).1,
        r == talk_spec(*old(p), *old(npc)).2,
        old(npc).quest.completed ==> final(npc).quest.completed,
{
    if npc.quest.completed {
        DialogueResult::AlreadyCompleted
    } else if p.bandits_defeated >= QUEST_BANDITS_REQUIRED {
        npc.quest.completed = true;
        p.gold = p.gold + npc.quest.reward;
        DialogueResult::Completed(npc.quest.reward)
    } else {
        DialogueResult::InProgress(npc.quest.description.clone())
    }
}

} // verus!
