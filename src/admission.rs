//! What the participants ask for (play a card, give up priority, pitch a card, declare blocks),
//! and the admission check that makes a proposed action pay before it may enter the stack or
//! the attack staging slot.
use crate::combat::board_same;
use crate::game::{CombatSteps, Game};
use crate::objects::{card_at, hero_at, is_card_at, is_hero_at, object_at, only_hero_changed, HeroBundle};
use crate::priority::PriorityView;
use crate::stack::GameEvent;
use vstd::prelude::*;

verus! {

broadcast use crate::priority::group_participants;

/// Why an intent was turned away; a turned-away intent changes nothing.
#[derive(Clone, Copy, Debug, PartialEq, Eq, Structural)]
pub enum IntentError {
    /// The actor does not hold priority.
    NoPriority,
    /// The actor may not declare blocks now.
    NotBlocking,
    /// The card does not exist, or is no card.
    UnknownCard,
    /// Cards of this type cannot be played.
    NotPlayable,
    /// The chosen target does not exist.
    UnknownTarget,
    /// The card must be played onto a target.
    TargetNeeded,
    /// Nothing waits to be paid for.
    NothingToPitchFor,
    /// The card has no color to pitch for.
    NotPitchable,
    /// The actor is no hero.
    UnknownHero,
    /// The pitch would take resources past their largest value.
    ResourceOverflow,
    /// A declared blocker does not exist.
    UnknownObject(u32),
    /// A declared blocker has no defense.
    NoDefense(u32),
    /// No attack is on the chain.
    NoChainLink,
}

/// Why a proposed action was refused.
#[derive(Clone, Copy, Debug, PartialEq, Eq, Structural)]
pub enum CostError {
    /// The card was an action and the actor has no action point left; the proposal is dropped.
    NoActionPoints,
    /// The actor lacks this many resources; the proposal waits for a pitch.
    Shortfall(u16),
    /// The card is gone or has no cost; the proposal is dropped.
    SourceGone,
    /// The actor is gone; the proposal is dropped.
    ActorGone,
}

#[derive(Clone, Copy, Debug, PartialEq, Eq, Structural)]
pub enum Admission {
    /// Nothing was proposed.
    Idle,
    Rejected(CostError),
    /// Paid for, and pushed onto the stack.
    Stacked,
    /// Paid for, and staged as an attack.
    Staged,
}

/// Only the priority tracker may differ between `a` and `b`.
pub open spec fn only_priority_changed(a: &Game, b: &Game) -> bool {
    &&& board_same(a, b)
    &&& a.chain == b.chain
    &&& a.combat == b.combat
}

/// Play a card: the actor must hold priority, the card must be playable, a target that is
/// named must exist, and an attack needs one. The action is then proposed and the game holds
/// priority until its cost is settled.
pub fn read_card(game: &mut Game, hero: u32, card: u32, target: Option<u32>) -> (r: Result<(), IntentError>)
    requires
        old(game).wf(),
    ensures
        final(game).wf(),
        !old(game).priority@.front_is(hero) || old(game).priority.blocks ==> r == Err::<(), IntentError>(IntentError::NoPriority),
        old(game).priority@.front_is(hero) && !old(game).priority.blocks ==> r == if !is_card_at(old(game).objects@, card) {
            Err(IntentError::UnknownCard)
        } else if !card_at(old(game).objects@, card).card_type.is_playable_spec() {
            Err(IntentError::NotPlayable)
        } else if target is Some && object_at(old(game).objects@, target->0).is_none() {
            Err(IntentError::UnknownTarget)
        } else if card_at(old(game).objects@, card).subtypes.has_attack_spec() && target is None {
            Err(IntentError::TargetNeeded)
        } else {
            Ok(())
        },
        r is Err ==> *final(game) == *old(game),
        r is Ok ==> {
            &&& final(game).objects == old(game).objects
            &&& final(game).stack == old(game).stack
            &&& final(game).attack_layer == old(game).attack_layer
            &&& final(game).chain == old(game).chain
            &&& final(game).phase == old(game).phase
            &&& final(game).combat == old(game).combat
            &&& final(game).proposed == Some(GameEvent {
                target,
                card,
                actor: hero,
                attack: card_at(old(game).objects@, card).subtypes.has_attack_spec(),
            })
            &&& final(game).priority@ == (PriorityView { hold: true, ..old(game).priority@ })
        },
{
    if !game.priority.has_priority(hero) {
        return Err(IntentError::NoPriority);
    }
    let (playable, attack) = match game.objects.card(card) {
        Some(c) => (c.card_type.is_playable(), c.subtypes.has_attack()),
        None => {
            return Err(IntentError::UnknownCard);
        },
    };
    if !playable {
        return Err(IntentError::NotPlayable);
    }
    match target {
        Some(t) => {
            if !game.resolves(t) {
                return Err(IntentError::UnknownTarget);
            }
        },
        None => {
            if attack {
                return Err(IntentError::TargetNeeded);
            }
        },
    }
    game.proposed = Some(GameEvent { target, card, actor: hero, attack });
    game.priority.hold_priority();
    Ok(())
}

/// Pass priority: only the participant who holds it may.
pub fn read_priority(game: &mut Game, hero: u32) -> (r: Result<(), IntentError>)
    requires
        old(game).wf(),
    ensures
        final(game).wf(),
        r is Ok <==> old(game).priority@.front_is(hero) && !old(game).priority.blocks,
        r is Err ==> r == Err::<(), IntentError>(IntentError::NoPriority) && *final(game) == *old(game),
        r is Ok ==> only_priority_changed(&*final(game), &*old(game))
            && final(game).priority@ == old(game).priority@.after_pass(),
{
    if !game.priority.has_priority(hero) {
        return Err(IntentError::NoPriority);
    }
    game.priority.pass_priority();
    Ok(())
}

/// Pitch a card to pay for the proposed action: the card leaves the hand for the front of the
/// pitch zone and its color's value joins the hero's resources.
pub fn read_pitch(game: &mut Game, hero: u32, card: u32) -> (r: Result<(), IntentError>)
    requires
        old(game).wf(),
    ensures
        final(game).wf(),
        r == if !(old(game).priority@.front_is(hero) && !old(game).priority.blocks) {
            Err(IntentError::NoPriority)
        } else if old(game).proposed is None {
            Err(IntentError::NothingToPitchFor)
        } else if !is_card_at(old(game).objects@, card) || card_at(old(game).objects@, card).color is None {
            Err(IntentError::NotPitchable)
        } else if !is_hero_at(old(game).objects@, hero) {
            Err(IntentError::UnknownHero)
        } else if hero_at(old(game).objects@, hero).resources
            + card_at(old(game).objects@, card).color->0.pitch_value() > u16::MAX {
            Err(IntentError::ResourceOverflow)
        } else {
            Ok::<(), IntentError>(())
        },
        r is Err ==> *final(game) == *old(game),
        r is Ok ==> {
            let h = hero_at(old(game).objects@, hero);
            let h2 = hero_at(final(game).objects@, hero);
            &&& only_hero_changed(old(game).objects@, final(game).objects@, hero)
            &&& h2.hand@ == h.hand@.filter(|c: u32| c != card)
            &&& h2.pitch@ == seq![card] + h.pitch@
            &&& h2.resources == h.resources + card_at(old(game).objects@, card).color->0.pitch_value()
            &&& h2.action_points == h.action_points
            &&& final(game).priority@ == (PriorityView { hold: true, ..old(game).priority@ })
            &&& final(game).stack == old(game).stack
            &&& final(game).attack_layer == old(game).attack_layer
            &&& final(game).chain == old(game).chain
            &&& final(game).proposed == old(game).proposed
            &&& final(game).phase == old(game).phase
            &&& final(game).combat == old(game).combat
        },
{
    if !game.priority.has_priority(hero) {
        return Err(IntentError::NoPriority);
    }
    if game.proposed.is_none() {
        return Err(IntentError::NothingToPitchFor);
    }
    let gain = match game.objects.card(card) {
        Some(c) => match c.color {
            Some(color) => color.pitch(),
            None => {
                return Err(IntentError::NotPitchable);
            },
        },
        None => {
            return Err(IntentError::NotPitchable);
        },
    };
    let resources = match game.objects.hero(hero) {
        Some(h) => h.resources,
        None => {
            return Err(IntentError::UnknownHero);
        },
    };
    if resources > u16::MAX - gain {
        return Err(IntentError::ResourceOverflow);
    }
    game.objects.pitch_card(hero, card, gain);
    game.priority.hold_priority();
    Ok(())
}

/// The object with id `id` exists and has a defense to block with.
pub open spec fn can_block(objects: Seq<Option<crate::objects::GameObject>>, id: u32) -> bool {
    is_card_at(objects, id) && card_at(objects, id).defense is Some
}

/// Declare blocks against the current attack: only the participant asked for blocks may, and
/// each blocker must exist and have a defense. The blocks are added to those already on the
/// attack, and the declarer passes.
pub fn read_blocks(game: &mut Game, hero: u32, blocks: Vec<u32>) -> (r: Result<(), IntentError>)
    requires
        old(game).wf(),
    ensures
        final(game).wf(),
        r is Ok <==> old(game).priority@.front_is(hero) && old(game).priority.blocks
            && (forall|i: int| 0 <= i < blocks@.len() ==> can_block(old(game).objects@, #[trigger] blocks@[i]))
            && old(game).chain.links@.len() > 0,
        !(old(game).priority@.front_is(hero) && old(game).priority.blocks) ==> r == Err::<(), IntentError>(IntentError::NotBlocking),
        r matches Err(IntentError::UnknownObject(x)) ==> blocks@.contains(x)
            && object_at(old(game).objects@, x).is_none(),
        r matches Err(IntentError::NoDefense(x)) ==> blocks@.contains(x)
            && object_at(old(game).objects@, x).is_some() && !can_block(old(game).objects@, x),
        r is Err ==> *final(game) == *old(game),
        r is Ok ==> {
            let link = old(game).chain.links@.last();
            &&& board_same(&*final(game), &*old(game))
            &&& final(game).combat == old(game).combat
            &&& final(game).chain.open == old(game).chain.open
            &&& final(game).chain.links@.len() == old(game).chain.links@.len()
            &&& final(game).chain.links@.drop_last() == old(game).chain.links@.drop_last()
            &&& crate::combat::blocks_added(link, final(game).chain.links@.last(), blocks@)
            &&& final(game).priority@ == old(game).priority@.after_pass()
        },
{
    if !game.priority.is_blocking(hero) {
        return Err(IntentError::NotBlocking);
    }
    let mut i: usize = 0;
    while i < blocks.len()
        invariant
            0 <= i <= blocks@.len(),
            *game == *old(game),
            game.wf(),
            game.priority@.front_is(hero) && game.priority.blocks,
            forall|j: int| 0 <= j < i ==> can_block(game.objects@, #[trigger] blocks@[j]),
        decreases blocks@.len() - i,
    {
        let b = blocks[i];
        if !game.resolves(b) {
            assert(blocks@[i as int] == b);
            return Err(IntentError::UnknownObject(b));
        }
        let defended = match game.objects.card(b) {
            Some(c) => c.defense.is_some(),
            None => false,
        };
        if !defended {
            assert(blocks@[i as int] == b);
            return Err(IntentError::NoDefense(b));
        }
        i = i + 1;
    }
    if game.chain.links.len() == 0 {
        return Err(IntentError::NoChainLink);
    }
    let last = game.chain.links.len() - 1;
    let mut blocks = blocks;
    game.chain.links[last].blocks.append(&mut blocks);
    proof {
        assert(game.chain.links@.drop_last() =~= old(game).chain.links@.drop_last());
    }
    game.priority.pass_priority();
    Ok(())
}

/// What the admission check answers on `g`.
pub open spec fn admission_outcome(g: &Game) -> Admission {
    match g.proposed {
        None => Admission::Idle,
        Some(e) => {
            let objs = g.objects@;
            let c = card_at(objs, e.card);
            let h = hero_at(objs, e.actor);
            if !is_card_at(objs, e.card) || c.cost is None {
                Admission::Rejected(CostError::SourceGone)
            } else if !is_hero_at(objs, e.actor) {
                Admission::Rejected(CostError::ActorGone)
            } else if c.card_type == crate::objects::CardType::Action && h.action_points == 0 {
                Admission::Rejected(CostError::NoActionPoints)
            } else if h.resources < c.cost->0 {
                Admission::Rejected(CostError::Shortfall((c.cost->0 - h.resources) as u16))
            } else if e.attack {
                Admission::Staged
            } else {
                Admission::Stacked
            }
        },
    }
}

/// What `evaluate_cost` does: `post` is the game after it ran on `pre`.
#[verifier::opaque]
pub open spec fn evaluate_cost_post(pre: Game, post: Game, r: Admission) -> bool {
    &&& (post.phase == pre.phase)
    &&& (post.combat == pre.combat)
    &&& (post.chain == pre.chain)
    &&& (r == admission_outcome(&pre))
    &&& (pre.proposed is None ==> post == pre)
    &&& (pre.proposed matches Some(e) ==> {
            let objs = pre.objects@;
            let c = card_at(objs, e.card);
            let h = hero_at(objs, e.actor);
            let released = PriorityView { hold: false, ..pre.priority@ };
            if !is_card_at(objs, e.card) || c.cost is None {
                &&& r == Admission::Rejected(CostError::SourceGone)
                &&& post.proposed is None
                &&& post.priority@ == released
                &&& post.objects == pre.objects
                &&& post.stack == pre.stack
                &&& post.attack_layer == pre.attack_layer
            } else if !is_hero_at(objs, e.actor) {
                &&& r == Admission::Rejected(CostError::ActorGone)
                &&& post.proposed is None
                &&& post.priority@ == released
                &&& post.objects == pre.objects
                &&& post.stack == pre.stack
                &&& post.attack_layer == pre.attack_layer
            } else if c.card_type == crate::objects::CardType::Action && h.action_points == 0 {
                &&& r == Admission::Rejected(CostError::NoActionPoints)
                &&& post.proposed is None
                &&& post.priority@ == released
                &&& post.objects == pre.objects
                &&& post.stack == pre.stack
                &&& post.attack_layer == pre.attack_layer
            } else if h.resources < c.cost->0 {
                &&& r == Admission::Rejected(CostError::Shortfall((c.cost->0 - h.resources) as u16))
                &&& post.proposed == pre.proposed
                &&& post.priority@ == released
                &&& post.objects == pre.objects
                &&& post.stack == pre.stack
                &&& post.attack_layer == pre.attack_layer
            } else {
                let uses_action = c.card_type == crate::objects::CardType::Action;
                &&& only_hero_changed(objs, post.objects@, e.actor)
                &&& hero_at(post.objects@, e.actor) == (HeroBundle {
                    resources: (h.resources - c.cost->0) as u16,
                    action_points: if uses_action {
                        (h.action_points - 1) as u16
                    } else {
                        h.action_points
                    },
                    ..h
                })
                &&& post.proposed is None
                &&& if e.attack {
                    &&& r == Admission::Staged
                    &&& post.attack_layer.0 == Some(e)
                    &&& post.stack == pre.stack
                    &&& post.priority@ == (PriorityView {
                        hold: true,
                        card_played: true,
                        ..pre.priority@
                    })
                } else {
                    &&& r == Admission::Stacked
                    &&& post.stack@ == pre.stack@.push(e)
                    &&& post.attack_layer == pre.attack_layer
                    &&& post.priority@ == (PriorityView {
                        card_played: true,
                        ..pre.priority@
                    })
                }
            }
        })
}

/// The admission check. A proposed action that uses an action point is refused, and dropped,
/// where the actor has none; one whose cost exceeds the actor's resources is refused with the
/// shortfall and kept for a later pitch; either way the game releases priority. Otherwise the
/// cost and, for an action, one action point are paid, the cycle records that a card was
/// played, and the event goes onto the stack, or, for an attack, into the staging slot while
/// the game holds priority.
pub fn evaluate_cost(game: &mut Game) -> (r: Admission)
    requires
        old(game).wf(),
    ensures
        final(game).wf(),
        evaluate_cost_post(*old(game), *final(game), r),
        r == admission_outcome(&*old(game)),
{
    proof {
        reveal(evaluate_cost_post);
    }
    let e = match game.proposed {
        Some(e) => e,
        None => {
            return Admission::Idle;
        },
    };
    let (cost, is_action) = match game.objects.card(e.card) {
        Some(c) => match c.cost {
            Some(cost) => (cost, c.card_type.is_action()),
            None => {
                game.proposed = None;
                game.priority.release_priority();
                return Admission::Rejected(CostError::SourceGone);
            },
        },
        None => {
            game.proposed = None;
            game.priority.release_priority();
            return Admission::Rejected(CostError::SourceGone);
        },
    };
    let (resources, action_points) = match game.objects.hero(e.actor) {
        Some(h) => (h.resources, h.action_points),
        None => {
            game.proposed = None;
            game.priority.release_priority();
            return Admission::Rejected(CostError::ActorGone);
        },
    };
    if is_action && action_points == 0 {
        game.proposed = None;
        game.priority.release_priority();
        return Admission::Rejected(CostError::NoActionPoints);
    }
    if resources < cost {
        game.priority.release_priority();
        return Admission::Rejected(CostError::Shortfall(cost - resources));
    }
    game.objects.pay(e.actor, cost, is_action);
    game.proposed = None;
    let r = if e.attack {
        game.attack_layer.stage(e);
        game.priority.hold_priority();
        Admission::Staged
    } else {
        game.stack.push(e);
        Admission::Stacked
    };
    game.priority.card_played = true;
    r
}

/// What `resolve_stack` does: `post` is the game after it ran on `pre`.
#[verifier::opaque]
pub open spec fn resolve_stack_post(pre: Game, post: Game, r: Option<GameEvent>) -> bool {
    &&& (!(pre.priority@.all_passed() && pre.stack@.len() > 0) ==> r is None && post == pre)
    &&& (pre.priority@.all_passed() && pre.stack@.len() > 0 ==> {
            let e = pre.stack@.last();
            let alive = is_card_at(pre.objects@, e.card);
            &&& post.stack@ == pre.stack@.drop_last()
            &&& r == if alive { Some(e) } else { None }
            &&& post.combat == if !alive && e.attack {
                Some(CombatSteps::CloseStep)
            } else {
                pre.combat
            }
            &&& post.objects == pre.objects
            &&& post.priority == pre.priority
            &&& post.attack_layer == pre.attack_layer
            &&& post.chain == pre.chain
            &&& post.proposed == pre.proposed
            &&& post.phase == pre.phase
        })
}

/// Once all have passed, the top of the stack resolves. Its event is returned for its card's
/// effect to be carried out; where the card has ceased to exist nothing is returned, and an
/// attack whose card is gone sends the combat to the close step.
pub fn resolve_stack(game: &mut Game) -> (r: Option<GameEvent>)
    requires
        old(game).wf(),
    ensures
        final(game).wf(),
        resolve_stack_post(*old(game), *final(game), r),
{
    proof {
        reveal(resolve_stack_post);
    }
    if !(game.priority.all_passed() && !game.stack.is_empty()) {
        return None;
    }
    let next = game.stack.pop().unwrap();
    if game.objects.card(next.card).is_none() {
        if next.attack {
            game.combat = Some(CombatSteps::CloseStep);
        }
        return None;
    }
    Some(next)
}

} // verus!
