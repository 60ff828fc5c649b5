//! The steps of one attack: Layer, Attack, Defend, Reaction, Damage, Resolution, Link, Close.
use crate::game::{CombatSteps, Game};
use crate::objects::{card_at, defense_at, hero_at, is_card_at, is_hero_at, object_at};
use crate::priority::PriorityView;
use crate::stack::ChainLink;
use vstd::prelude::*;

verus! {

broadcast use crate::priority::group_participants;

/// Everything but the priority tracker, the combat step and the chain is as it was.
pub open spec fn board_same(a: &Game, b: &Game) -> bool {
    &&& a.objects == b.objects
    &&& a.stack == b.stack
    &&& a.attack_layer == b.attack_layer
    &&& a.proposed == b.proposed
    &&& a.phase == b.phase
}

/// `link` is a fresh chain link for an attack with `card` by `actor` on `target`.
pub open spec fn fresh_link(link: ChainLink, target: u32, actor: u32, card: u32) -> bool {
    &&& link.target == target
    &&& link.attacker == actor
    &&& link.attack == card
    &&& link.blocks@.len() == 0
    &&& link.attack_reactions@.len() == 0
    &&& link.defense_reactions@.len() == 0
    &&& !link.hit
    &&& !link.closed
}

/// The sum of the defense of the objects `ids`.
pub open spec fn sum_defense(objects: Seq<Option<crate::objects::GameObject>>, ids: Seq<u32>) -> int
    decreases ids.len(),
{
    if ids.len() == 0 {
        0
    } else {
        sum_defense(objects, ids.drop_last()) + defense_at(objects, ids.last())
    }
}

/// What blocks and defense reactions put up against the attack of `link`.
pub open spec fn total_defense(objects: Seq<Option<crate::objects::GameObject>>, link: ChainLink) -> int {
    sum_defense(objects, link.blocks@) + sum_defense(objects, link.defense_reactions@)
}

/// The attack power of the card with id `id`, where it still exists and has one.
pub open spec fn attack_power(objects: Seq<Option<crate::objects::GameObject>>, id: u32) -> Option<u16> {
    if is_card_at(objects, id) {
        card_at(objects, id).attack
    } else {
        None
    }
}

/// `after` is `before` with `blocks` added to its blocks.
pub open spec fn blocks_added(before: ChainLink, after: ChainLink, blocks: Seq<u32>) -> bool {
    &&& after.blocks@ == before.blocks@ + blocks
    &&& after.target == before.target
    &&& after.attacker == before.attacker
    &&& after.attack == before.attack
    &&& after.attack_reactions == before.attack_reactions
    &&& after.defense_reactions == before.defense_reactions
    &&& after.hit == before.hit
    &&& after.closed == before.closed
}

/// The link once the damage step has weighed an attack of power `attack` against `defense`.
pub open spec fn link_after_damage(link: ChainLink, attack: int, defense: int) -> ChainLink {
    ChainLink { hit: link.hit || attack >= defense, ..link }
}

/// An attack that entered the chain, whatever blocks were then declared on it, is a hit after
/// the damage step exactly when its power is at least the total defense put up against it.
pub proof fn lemma_admitted_attack_hit(
    link: ChainLink,
    target: u32,
    actor: u32,
    card: u32,
    blocked: ChainLink,
    blocks: Seq<u32>,
    objects: Seq<Option<crate::objects::GameObject>>,
    attack: u16,
)
    requires
        fresh_link(link, target, actor, card),
        blocks_added(link, blocked, blocks),
    ensures
        ({
            let defense = total_defense(objects, blocked);
            &&& link_after_damage(blocked, attack as int, defense).hit == (attack >= defense)
            &&& link_after_damage(blocked, attack as int, defense).blocks@ == blocks
            &&& link_after_damage(blocked, attack as int, defense).target == target
        }),
{
    assert(blocked.blocks@ =~= blocks);
}

/// The damage an attack of power `attack` deals through `defense`: none where the defense is
/// larger.
pub open spec fn damage_dealt(attack: int, defense: int) -> int {
    if attack >= defense {
        attack - defense
    } else {
        0
    }
}

/// A hero's health after taking `damage`; it does not go below zero.
pub open spec fn health_after(health: u16, damage: int) -> u16 {
    if damage <= health {
        (health - damage) as u16
    } else {
        0
    }
}

/// The tracker on entering the defend step: blocks only; where the target is a hero, the
/// head passes so that the next participant may declare blocks.
pub open spec fn defend_entry(p: PriorityView, target_is_hero: bool) -> PriorityView {
    let b = PriorityView { blocks: true, ..p };
    if target_is_hero {
        b.after_reset().after_pass()
    } else {
        b
    }
}

/// The tracker once blocks are declared.
pub open spec fn blocks_done(p: PriorityView) -> PriorityView {
    PriorityView { blocks: false, ..p }.after_reset()
}

/// What `trigger_layer_step` does: `post` is the game after it ran on `pre`.
#[verifier::opaque]
pub open spec fn trigger_layer_step_post(pre: Game, post: Game, staged_now: bool) -> bool {
    &&& (post.objects == pre.objects)
    &&& (post.stack == pre.stack)
    &&& (post.chain == pre.chain)
    &&& (post.proposed == pre.proposed)
    &&& (post.phase == pre.phase)
    &&& (!staged_now || pre.attack_layer.0.is_none() ==> post == pre)
    &&& (staged_now && pre.attack_layer.0.is_some() ==> if pre.combat.is_none()
            || pre.combat == Some(CombatSteps::LinkStep) {
            &&& post.combat == Some(CombatSteps::LayerStep)
            &&& post.priority@ == (PriorityView { hold: false, ..pre.priority@ })
            &&& post.attack_layer == pre.attack_layer
        } else {
            &&& post.combat == pre.combat
            &&& post.priority == pre.priority
            &&& post.attack_layer.0.is_none()
        })
}

/// An attack was staged: it enters the layer step from no step or the link step, and is
/// turned away from any other.
pub fn trigger_layer_step(game: &mut Game, staged_now: bool)
    requires
        old(game).wf(),
    ensures
        final(game).wf(),
        trigger_layer_step_post(*old(game), *final(game), staged_now),
{
    proof {
        reveal(trigger_layer_step_post);
    }
    if !staged_now || game.attack_layer.0.is_none() {
        return;
    }
    match game.combat {
        None | Some(CombatSteps::LinkStep) => {
            game.combat = Some(CombatSteps::LayerStep);
            game.priority.release_priority();
        },
        _ => {
            game.attack_layer.take();
        },
    }
}

/// What `trigger_attack_step` does: `post` is the game after it ran on `pre`.
#[verifier::opaque]
pub open spec fn trigger_attack_step_post(pre: Game, post: Game, changed: bool) -> bool {
    &&& (post.objects == pre.objects)
    &&& (post.stack == pre.stack)
    &&& (post.proposed == pre.proposed)
    &&& (post.phase == pre.phase)
    &&& (!(pre.combat == Some(CombatSteps::LayerStep) && changed
            && pre.priority@.all_passed()) ==> post == pre)
    &&& (pre.combat == Some(CombatSteps::LayerStep) && changed
            && pre.priority@.all_passed() ==> {
            &&& post.attack_layer.0.is_none()
            &&& match pre.attack_layer.0 {
                Some(e) => match e.target {
                    Some(t) => if object_at(pre.objects@, t).is_some() {
                        &&& post.combat == Some(CombatSteps::AttackStep)
                        &&& post.chain.open
                        &&& post.chain.links@.len() == pre.chain.links@.len() + 1
                        &&& post.chain.links@.drop_last() == pre.chain.links@
                        &&& fresh_link(post.chain.links@.last(), t, e.actor, e.card)
                        &&& post.priority@ == pre.priority@.after_reset()
                    } else {
                        &&& post.combat == Some(CombatSteps::CloseStep)
                        &&& post.chain == pre.chain
                        &&& post.priority == pre.priority
                    },
                    None => {
                        &&& post.combat == Some(CombatSteps::CloseStep)
                        &&& post.chain == pre.chain
                        &&& post.priority == pre.priority
                    },
                },
                None => {
                    &&& post.combat == Some(CombatSteps::CloseStep)
                    &&& post.chain == pre.chain
                    &&& post.priority == pre.priority
                },
            }
        })
}

/// All passed in the layer step: the staged attack enters the chain, or, where its target
/// is missing or gone, the attack is abandoned at the close step.
pub fn trigger_attack_step(game: &mut Game, changed: bool)
    requires
        old(game).wf(),
    ensures
        final(game).wf(),
        trigger_attack_step_post(*old(game), *final(game), changed),
{
    proof {
        reveal(trigger_attack_step_post);
    }
    if !(matches!(game.combat, Some(CombatSteps::LayerStep)) && changed
        && game.priority.all_passed()) {
        return;
    }
    let attack = game.attack_layer.take();
    match attack {
        Some(e) => match e.target {
            Some(t) => {
                if game.resolves(t) {
                    game.combat = Some(CombatSteps::AttackStep);
                    game.chain.add_chain_link(ChainLink::attack(t, e.actor, e.card));
                    proof {
                        assert(game.chain.links@.drop_last() =~= old(game).chain.links@);
                    }
                    game.priority.reset();
                } else {
                    game.combat = Some(CombatSteps::CloseStep);
                }
            },
            None => {
                game.combat = Some(CombatSteps::CloseStep);
            },
        },
        None => {
            game.combat = Some(CombatSteps::CloseStep);
        },
    }
}

/// What `trigger_defend_step` does: `post` is the game after it ran on `pre`.
#[verifier::opaque]
pub open spec fn trigger_defend_step_post(pre: Game, post: Game, changed: bool) -> bool {
    &&& (board_same(&post, &pre))
    &&& (post.chain == pre.chain)
    &&& (({
            let ready = pre.step_ready(CombatSteps::AttackStep, changed);
            let target = pre.chain.links@.last().target;
            let gone = ready && object_at(pre.objects@, target).is_none();
            let entered = ready && !gone;
            let mid = if entered {
                defend_entry(pre.priority@, is_hero_at(pre.objects@, target))
            } else {
                pre.priority@
            };
            let mid_combat = if entered {
                Some(CombatSteps::DefendStep)
            } else if gone {
                Some(CombatSteps::CloseStep)
            } else {
                pre.combat
            };
            let declared = mid_combat == Some(CombatSteps::DefendStep) && (changed || entered)
                && mid.all_passed() && mid.blocks;
            &&& post.combat == mid_combat
            &&& post.priority@ == if declared {
                blocks_done(mid)
            } else {
                mid
            }
        }))
}

/// All passed in the attack step: the defend step opens for blocks. Where the target is no
/// hero, the block window closes at once; where the target is gone, the attack is abandoned
/// at the close step. Once everyone has passed while blocks are open, blocks are declared.
pub fn trigger_defend_step(game: &mut Game, changed: bool)
    requires
        old(game).wf(),
    ensures
        final(game).wf(),
        trigger_defend_step_post(*old(game), *final(game), changed),
{
    proof {
        reveal(trigger_defend_step_post);
    }
    let mut entered = false;
    if matches!(game.combat, Some(CombatSteps::AttackStep)) && changed
        && game.priority.all_passed() && game.stack.is_empty() {
        let target = game.chain.current().target;
        if !game.resolves(target) {
            game.combat = Some(CombatSteps::CloseStep);
        } else {
            entered = true;
            game.combat = Some(CombatSteps::DefendStep);
            game.priority.blocks = true;
            if game.objects.is_hero(target) {
                game.priority.reset();
                game.priority.pass_priority();
            }
        }
    }
    if matches!(game.combat, Some(CombatSteps::DefendStep)) && (changed || entered)
        && game.priority.all_passed() && game.priority.blocks {
        game.priority.blocks = false;
        game.priority.reset();
    }
}

/// What `trigger_reaction_step` does: `post` is the game after it ran on `pre`.
#[verifier::opaque]
pub open spec fn trigger_reaction_step_post(pre: Game, post: Game, changed: bool) -> bool {
    &&& (!pre.step_ready(CombatSteps::DefendStep, changed) ==> post == pre)
    &&& (pre.step_ready(CombatSteps::DefendStep, changed) ==> {
            &&& board_same(&post, &pre)
            &&& post.chain == pre.chain
            &&& post.combat == Some(CombatSteps::ReactionStep)
            &&& post.priority@ == pre.priority@.after_reset()
        })
}

/// All passed in the defend step with nothing pending: the reaction step begins.
pub fn trigger_reaction_step(game: &mut Game, changed: bool)
    requires
        old(game).wf(),
    ensures
        final(game).wf(),
        trigger_reaction_step_post(*old(game), *final(game), changed),
{
    proof {
        reveal(trigger_reaction_step_post);
    }
    if matches!(game.combat, Some(CombatSteps::DefendStep)) && changed
        && game.priority.all_passed() && game.stack.is_empty() {
        game.priority.reset();
        game.combat = Some(CombatSteps::ReactionStep);
    }
}

/// The sum of the defense of `ids`, capped at `u64::MAX`.
fn defense_sum(game: &Game, ids: &Vec<u32>) -> (r: u64)
    ensures
        r as int == if sum_defense(game.objects@, ids@) <= u64::MAX {
            sum_defense(game.objects@, ids@)
        } else {
            u64::MAX as int
        },
{
    let mut total: u64 = 0;
    let mut i: usize = 0;
    while i < ids.len()
        invariant
            0 <= i <= ids@.len(),
            total as int == if sum_defense(game.objects@, ids@.subrange(0, i as int)) <= u64::MAX {
                sum_defense(game.objects@, ids@.subrange(0, i as int))
            } else {
                u64::MAX as int
            },
        decreases ids@.len() - i,
    {
        proof {
            lemma_sum_defense_nonneg(game.objects@, ids@.subrange(0, i as int));
            assert(ids@.subrange(0, i as int + 1).drop_last() =~= ids@.subrange(0, i as int));
        }
        let d = game.objects.defense_or_zero(ids[i]);
        total = total.saturating_add(d as u64);
        i = i + 1;
    }
    assert(ids@.subrange(0, ids@.len() as int) =~= ids@);
    total
}

proof fn lemma_sum_defense_nonneg(objects: Seq<Option<crate::objects::GameObject>>, ids: Seq<u32>)
    ensures
        sum_defense(objects, ids) >= 0,
    decreases ids.len(),
{
    if ids.len() > 0 {
        lemma_sum_defense_nonneg(objects, ids.drop_last());
    }
}

/// What `trigger_damage_step` does: `post` is the game after it ran on `pre`.
#[verifier::opaque]
pub open spec fn trigger_damage_step_post(pre: Game, post: Game, changed: bool) -> bool {
    &&& (!pre.step_ready(CombatSteps::ReactionStep, changed) ==> post == pre)
    &&& (pre.step_ready(CombatSteps::ReactionStep, changed) ==> {
            let link = pre.chain.links@.last();
            let defense = total_defense(pre.objects@, link);
            &&& post.stack == pre.stack
            &&& post.attack_layer == pre.attack_layer
            &&& post.proposed == pre.proposed
            &&& post.phase == pre.phase
            &&& post.chain.open == pre.chain.open
            &&& match attack_power(pre.objects@, link.attack) {
                None => {
                    &&& post.combat == Some(CombatSteps::CloseStep)
                    &&& post.priority@ == (PriorityView { hold: false, ..pre.priority@ })
                    &&& post.chain == pre.chain
                    &&& post.objects == pre.objects
                },
                Some(attack) => {
                    let hit = attack >= defense;
                    &&& post.combat == Some(CombatSteps::DamageStep)
                    &&& post.priority@ == (PriorityView { hold: true, ..pre.priority@ })
                    &&& post.chain.links@ == pre.chain.links@.update(
                        pre.chain.links@.len() - 1,
                        link_after_damage(link, attack as int, defense),
                    )
                    &&& if hit && is_hero_at(pre.objects@, link.target) {
                        &&& post.objects@ == pre.objects@.update(
                            link.target as int,
                            Some(crate::objects::GameObject::Hero(crate::objects::HeroBundle {
                                health: health_after(
                                    hero_at(pre.objects@, link.target).health,
                                    damage_dealt(attack as int, defense),
                                ),
                                ..hero_at(pre.objects@, link.target)
                            })),
                        )
                        &&& hero_at(pre.objects@, link.target).health - hero_at(
                            post.objects@,
                            link.target,
                        ).health <= attack - defense
                    } else {
                        post.objects == pre.objects
                    }
                },
            }
        })
}

/// All passed in the reaction step with nothing pending: the game holds priority and the
/// damage is worked out. The attack hits where its power is at least the total defense of
/// blocks and defense reactions, and a hero target then loses the difference. Where the
/// attacking card is gone, the attack is abandoned at the close step.
pub fn trigger_damage_step(game: &mut Game, changed: bool)
    requires
        old(game).wf(),
    ensures
        final(game).wf(),
        trigger_damage_step_post(*old(game), *final(game), changed),
{
    proof {
        reveal(trigger_damage_step_post);
    }
    if !(matches!(game.combat, Some(CombatSteps::ReactionStep)) && changed
        && game.priority.all_passed() && game.stack.is_empty()) {
        return;
    }
    game.priority.hold_priority();
    game.combat = Some(CombatSteps::DamageStep);
    let attack_id = game.chain.current().attack;
    let attack = match game.objects.card(attack_id) {
        Some(c) => c.attack,
        None => None,
    };
    match attack {
        None => {
            game.combat = Some(CombatSteps::CloseStep);
            game.priority.release_priority();
        },
        Some(attack) => {
            let blocks = defense_sum(game, &game.chain.current().blocks);
            let reactions = defense_sum(game, &game.chain.current().defense_reactions);
            let total = blocks.saturating_add(reactions);
            proof {
                let link = game.chain.links@.last();
                lemma_sum_defense_nonneg(game.objects@, link.blocks@);
                lemma_sum_defense_nonneg(game.objects@, link.defense_reactions@);
            }
            if attack as u64 >= total {
                let target = game.chain.current().target;
                let last = game.chain.links.len() - 1;
                game.chain.links[last].hit = true;
                let damage = attack - (total as u16);
                match game.objects.hero(target) {
                    Some(h) => {
                        let health = h.health.saturating_sub(damage);
                        game.objects.set_health(target, health);
                        proof {
                            assert(game.objects@ =~= old(game).objects@.update(
                                target as int,
                                Some(crate::objects::GameObject::Hero(crate::objects::HeroBundle {
                                    health,
                                    ..hero_at(old(game).objects@, target)
                                })),
                            ));
                        }
                    },
                    None => {},
                }
            }
            proof {
                let link = old(game).chain.links@.last();
                let n = old(game).chain.links@.len() - 1;
                assert(game.chain.links@ =~= old(game).chain.links@.update(
                    n,
                    link_after_damage(link, attack as int, total_defense(old(game).objects@, link)),
                ));
            }
        },
    }
}

/// What `trigger_resolution_step` does: `post` is the game after it ran on `pre`.
#[verifier::opaque]
pub open spec fn trigger_resolution_step_post(pre: Game, post: Game) -> bool {
    &&& (pre.combat != Some(CombatSteps::DamageStep) ==> post == pre)
    &&& (pre.combat == Some(CombatSteps::DamageStep) ==> {
            &&& board_same(&post, &pre)
            &&& post.combat == Some(CombatSteps::ResolutionStep)
            &&& post.chain.open == pre.chain.open
            &&& post.chain.links@ == pre.chain.links@.update(
                pre.chain.links@.len() - 1,
                ChainLink { closed: true, ..pre.chain.links@.last() },
            )
            &&& post.priority@ == PriorityView {
                hold: false,
                ..pre.priority@.after_reset()
            }
        })
}

/// The damage step is over: the link closes, and priority is restored to the participants.
pub fn trigger_resolution_step(game: &mut Game)
    requires
        old(game).wf(),
    ensures
        final(game).wf(),
        trigger_resolution_step_post(*old(game), *final(game)),
{
    proof {
        reveal(trigger_resolution_step_post);
    }
    if matches!(game.combat, Some(CombatSteps::DamageStep)) {
        game.combat = Some(CombatSteps::ResolutionStep);
        game.chain.close_current();
        game.priority.reset();
        game.priority.release_priority();
    }
}

/// What `trigger_link_step` does: `post` is the game after it ran on `pre`.
#[verifier::opaque]
pub open spec fn trigger_link_step_post(pre: Game, post: Game, changed: bool) -> bool {
    &&& (!pre.step_ready(CombatSteps::ResolutionStep, changed) ==> post == pre)
    &&& (pre.step_ready(CombatSteps::ResolutionStep, changed) ==> {
            &&& board_same(&post, &pre)
            &&& post.chain == pre.chain
            &&& post.combat == Some(CombatSteps::LinkStep)
            &&& post.priority@ == pre.priority@.after_reset()
        })
}

/// All passed in the resolution step with nothing pending: the link step begins.
pub fn trigger_link_step(game: &mut Game, changed: bool)
    requires
        old(game).wf(),
    ensures
        final(game).wf(),
        trigger_link_step_post(*old(game), *final(game), changed),
{
    proof {
        reveal(trigger_link_step_post);
    }
    if matches!(game.combat, Some(CombatSteps::ResolutionStep)) && changed
        && game.priority.all_passed() && game.stack.is_empty() {
        game.combat = Some(CombatSteps::LinkStep);
        game.priority.reset();
    }
}

/// What `trigger_close_step` does: `post` is the game after it ran on `pre`.
#[verifier::opaque]
pub open spec fn trigger_close_step_post(pre: Game, post: Game, changed: bool) -> bool {
    &&& (!pre.step_ready(CombatSteps::LinkStep, changed) ==> post == pre)
    &&& (pre.step_ready(CombatSteps::LinkStep, changed) ==> {
            &&& board_same(&post, &pre)
            &&& post.chain == pre.chain
            &&& post.combat == Some(CombatSteps::CloseStep)
            &&& post.priority@ == pre.priority@.after_reset()
        })
}

/// All passed in the link step with nothing pending: the attack is over.
pub fn trigger_close_step(game: &mut Game, changed: bool)
    requires
        old(game).wf(),
    ensures
        final(game).wf(),
        trigger_close_step_post(*old(game), *final(game), changed),
{
    proof {
        reveal(trigger_close_step_post);
    }
    if matches!(game.combat, Some(CombatSteps::LinkStep)) && changed
        && game.priority.all_passed() && game.stack.is_empty() {
        game.combat = Some(CombatSteps::CloseStep);
        game.priority.reset();
    }
}

} // verus!
