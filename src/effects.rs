//! Card effects that wait for a moment of the game: a trigger names its kind and the card it
//! belongs to, and lasts until the end of the turn.
use crate::game::{CombatSteps, Game};
use crate::objects::{
    hero_at, is_hero_at, only_hero_changed, CardBundle, CardClassTypes, CardSubTypes, CardType,
    Color, HeroBundle,
};
use vstd::prelude::*;

verus! {

#[derive(Clone, Copy, Debug, PartialEq, Eq, Structural)]
pub enum TriggerKind {
    OnAttack,
    OnHit,
}

pub struct Trigger {
    pub kind: TriggerKind,
    pub card_id: String,
}

/// The triggers in force.
pub struct Effects {
    pub triggers: Vec<Trigger>,
}

/// Position of the first trigger of `kind` for the card `id` in `ts`, if any.
pub open spec fn is_first_trigger(ts: Seq<Trigger>, kind: TriggerKind, id: Seq<char>, i: int) -> bool {
    &&& 0 <= i < ts.len()
    &&& ts[i].kind == kind && ts[i].card_id@ == id
    &&& forall|j: int| 0 <= j < i ==> !(ts[j].kind == kind && #[trigger] ts[j].card_id@ == id)
}

pub open spec fn has_trigger(ts: Seq<Trigger>, kind: TriggerKind, id: Seq<char>) -> bool {
    exists|i: int| 0 <= i < ts.len() && ts[i].kind == kind && #[trigger] ts[i].card_id@ == id
}

impl Effects {
    pub fn new() -> (r: Effects)
        ensures
            r.triggers@.len() == 0,
    {
        Effects { triggers: Vec::new() }
    }

    /// The first trigger of `kind` for the card `id`.
    pub fn find(&self, kind: TriggerKind, id: &String) -> (r: Option<usize>)
        ensures
            match r {
                Some(i) => is_first_trigger(self.triggers@, kind, id@, i as int),
                None => !has_trigger(self.triggers@, kind, id@),
            },
    {
        let mut i: usize = 0;
        while i < self.triggers.len()
            invariant
                0 <= i <= self.triggers@.len(),
                forall|j: int| 0 <= j < i ==> !(self.triggers@[j].kind == kind && #[trigger] self.triggers@[j].card_id@ == id@),
            decreases self.triggers@.len() - i,
        {
            if self.triggers[i].kind == kind && self.triggers[i].card_id == *id {
                return Some(i);
            }
            i = i + 1;
        }
        None
    }
}

/// What `ToxicityRed::play` does: `post` holds the triggers after it ran on `pre`.
#[verifier::opaque]
pub open spec fn play_post(pre: Effects, post: Effects, played: Option<CardBundle>) -> bool {
    ({
        let fires = played matches Some(c) && c.card_id matches Some(id) && id@ == "OUT165"@;
        if fires {
            &&& post.triggers@.len() == pre.triggers@.len() + 1
            &&& post.triggers@.drop_last() == pre.triggers@
            &&& post.triggers@.last().kind == TriggerKind::OnAttack
            &&& post.triggers@.last().card_id@ == "OUT165"@
        } else {
            post.triggers@ == pre.triggers@
        }
    })
}

/// What `ToxicityRed::on_attack` does with the game `g`.
#[verifier::opaque]
pub open spec fn on_attack_post(pre: Effects, post: Effects, g: Game) -> bool {
    ({
        let ts = pre.triggers@;
        let staged_class = match g.attack_layer.0 {
            Some(e) => if crate::objects::is_card_at(g.objects@, e.card) {
                crate::objects::card_at(g.objects@, e.card).class
            } else {
                None
            },
            None => None,
        };
        let fires = has_trigger(ts, TriggerKind::OnAttack, "OUT165"@) && (staged_class matches Some(c)
            && (c.contains_spec(CardClassTypes::Assassin) || c.contains_spec(CardClassTypes::Ranger)));
        if fires {
            exists|i: int| #[trigger] is_first_trigger(ts, TriggerKind::OnAttack, "OUT165"@, i)
                && post.triggers@.len() == ts.len()
                && post.triggers@.drop_last() == ts.remove(i)
                && post.triggers@.last().kind == TriggerKind::OnHit
                && post.triggers@.last().card_id@ == "OUT165"@
        } else {
            post.triggers@ == ts
        }
    })
}

/// What `ToxicityRed::on_hit` does to the triggers and to the game.
#[verifier::opaque]
pub open spec fn on_hit_post(pre_e: Effects, post_e: Effects, pre_g: Game, post_g: Game, entered_damage: bool) -> bool {
    &&& post_g.priority == pre_g.priority
    &&& post_g.chain == pre_g.chain
    &&& post_g.combat == pre_g.combat
    &&& post_g.stack == pre_g.stack
    &&& ({
            let ts = pre_e.triggers@;
            let fires = entered_damage && pre_g.combat == Some(CombatSteps::DamageStep)
                && pre_g.chain.links@.len() > 0 && pre_g.chain.links@.last().hit
                && has_trigger(ts, TriggerKind::OnHit, "OUT165"@);
            let target = pre_g.chain.links@.last().target;
            if fires {
                &&& exists|i: int| #[trigger] is_first_trigger(ts, TriggerKind::OnHit, "OUT165"@, i)
                    && post_e.triggers@ == ts.remove(i)
                &&& if is_hero_at(pre_g.objects@, target) {
                    &&& only_hero_changed(pre_g.objects@, post_g.objects@, target)
                    &&& hero_at(post_g.objects@, target) == (HeroBundle {
                        health: if hero_at(pre_g.objects@, target).health >= 3 {
                            (hero_at(pre_g.objects@, target).health - 3) as u16
                        } else {
                            0
                        },
                        ..hero_at(pre_g.objects@, target)
                    })
                } else {
                    post_g.objects == pre_g.objects
                }
            } else {
                &&& post_e.triggers@ == ts
                &&& post_g.objects == pre_g.objects
            }
        })
    &&& post_g.attack_layer == pre_g.attack_layer
    &&& post_g.proposed == pre_g.proposed
    &&& post_g.phase == pre_g.phase
}

/// The card "Toxicity" (red): an action that, played, makes the next Assassin or Ranger
/// attack this turn cost its target three more health on a hit.
pub struct ToxicityRed;

impl ToxicityRed {
    pub fn card_id() -> (r: String)
        ensures
            r@ == "OUT165"@,
    {
        "OUT165".to_owned()
    }

    pub fn card() -> (r: CardBundle)
        ensures
            r.name@ == "Toxicity"@,
            r.card_id matches Some(id) && id@ == "OUT165"@,
            r.cost == Some(0u16),
            r.color == Some(Color::Red),
            r.attack is None,
            r.defense == Some(2u16),
            r.card_type == CardType::Action,
            r.subtypes.0@.len() == 0,
            r.class is None,
            r.go_again,
    {
        CardBundle {
            name: "Toxicity".to_owned(),
            card_id: Some(Self::card_id()),
            cost: Some(0),
            color: Some(Color::Red),
            attack: None,
            defense: Some(2),
            card_type: CardType::Action,
            subtypes: CardSubTypes(Vec::new()),
            class: None,
            go_again: true,
        }
    }

    /// When this card was played, an attack trigger is set for it.
    pub fn play(effects: &mut Effects, played: Option<&CardBundle>)
        ensures
            play_post(
                *old(effects),
                *final(effects),
                match played {
                    Some(c) => Some(*c),
                    None => None,
                },
            ),
    {
        proof {
            reveal(play_post);
        }
        let id = Self::card_id();
        if let Some(c) = played {
            if let Some(cid) = &c.card_id {
                if *cid == id {
                    let ghost before = effects.triggers@;
                    effects.triggers.push(Trigger { kind: TriggerKind::OnAttack, card_id: id });
                    assert(effects.triggers@.drop_last() =~= before);
                }
            }
        }
    }

    /// While its attack trigger is set and the staged attack is of the Assassin or Ranger
    /// class, the attack trigger gives way to a hit trigger.
    pub fn on_attack(effects: &mut Effects, game: &Game)
        ensures
            on_attack_post(*old(effects), *final(effects), *game),
    {
        proof {
            reveal(on_attack_post);
        }
        let id = Self::card_id();
        let i = match effects.find(TriggerKind::OnAttack, &id) {
            Some(i) => i,
            None => {
                return;
            },
        };
        let class = match game.attack_layer.0 {
            Some(e) => match game.objects.card(e.card) {
                Some(c) => c.class,
                None => None,
            },
            None => None,
        };
        if let Some(class) = class {
            if class.contains(CardClassTypes::Assassin) || class.contains(CardClassTypes::Ranger) {
                let ghost before = effects.triggers@;
                effects.triggers.push(Trigger { kind: TriggerKind::OnHit, card_id: id });
                effects.triggers.remove(i);
                assert(effects.triggers@.drop_last() =~= before.remove(i as int));
                assert(is_first_trigger(before, TriggerKind::OnAttack, "OUT165"@, i as int));
            }
        }
    }

    /// On entering the damage step with a hit, a set hit trigger makes a hero target lose
    /// three health, never going below zero, and is used up.
    pub fn on_hit(effects: &mut Effects, game: &mut Game, entered_damage: bool)
        requires
            old(game).wf(),
        ensures
            final(game).wf(),
            on_hit_post(*old(effects), *final(effects), *old(game), *final(game), entered_damage),
    {
        proof {
            reveal(on_hit_post);
        }
        if !(entered_damage && matches!(game.combat, Some(CombatSteps::DamageStep))
            && game.chain.links.len() > 0 && game.chain.current().hit) {
            return;
        }
        let id = Self::card_id();
        let i = match effects.find(TriggerKind::OnHit, &id) {
            Some(i) => i,
            None => {
                return;
            },
        };
        let target = game.chain.current().target;
        match game.objects.hero(target) {
            Some(h) => {
                let health = h.health.saturating_sub(3);
                game.objects.set_health(target, health);
            },
            None => {},
        }
        effects.triggers.remove(i);
    }
}

} // verus!
