//! The turn's phases: Start, Action and End, in a cycle.
use crate::game::{CombatSteps, GamePhases, Game};
use crate::objects::{hero_at, is_hero_at, only_hero_changed, HeroBundle};
use vstd::prelude::*;

verus! {

broadcast use crate::priority::group_participants;

/// What `end_start_phase` does: `post` is the game after it ran on `pre`.
#[verifier::opaque]
pub open spec fn end_start_phase_post(pre: Game, post: Game) -> bool {
    &&& (!(pre.phase == GamePhases::StartPhase && pre.stack@.len() == 0)
            ==> post == pre)
    &&& (pre.phase == GamePhases::StartPhase && pre.stack@.len() == 0 ==> {
            let p = pre.priority@.after_cycle();
            let tp = post.turn_player_spec();
            &&& post.phase == GamePhases::ActionPhase
            &&& post.priority@ == p
            &&& post.stack == pre.stack
            &&& post.attack_layer == pre.attack_layer
            &&& post.chain == pre.chain
            &&& post.proposed == pre.proposed
            &&& post.combat == pre.combat
            &&& if is_hero_at(pre.objects@, tp) {
                &&& only_hero_changed(pre.objects@, post.objects@, tp)
                &&& hero_at(post.objects@, tp) == (HeroBundle {
                    action_points: 1,
                    ..hero_at(pre.objects@, tp)
                })
            } else {
                post.objects == pre.objects
            }
        })
}

/// The start phase ends once nothing is pending. The action phase then begins: priority
/// cycles to the next turn player, who gets one action point.
pub fn end_start_phase(game: &mut Game)
    requires
        old(game).wf(),
    ensures
        final(game).wf(),
        end_start_phase_post(*old(game), *final(game)),
{
    proof {
        reveal(end_start_phase_post);
    }
    if matches!(game.phase, GamePhases::StartPhase) && game.stack.is_empty() {
        game.phase = GamePhases::ActionPhase;
        game.priority.cycle_priority();
        let tp = game.turn_player();
        if game.objects.is_hero(tp) {
            game.objects.set_action_points(tp, 1);
        }
    }
}

/// What `end_action_phase` does: `post` is the game after it ran on `pre`.
#[verifier::opaque]
pub open spec fn end_action_phase_post(pre: Game, post: Game, changed: bool) -> bool {
    &&& (!(pre.stack@.len() == 0 && pre.attack_layer.0.is_none() && changed
            && pre.priority@.all_passed() && !pre.chain.open && pre.phase
            == GamePhases::ActionPhase) ==> post == pre)
    &&& (pre.stack@.len() == 0 && pre.attack_layer.0.is_none() && changed
            && pre.priority@.all_passed() && !pre.chain.open && pre.phase
            == GamePhases::ActionPhase ==> {
            let tp = pre.turn_player_spec();
            &&& post.phase == GamePhases::EndPhase
            &&& post.priority == pre.priority
            &&& post.stack == pre.stack
            &&& post.attack_layer == pre.attack_layer
            &&& post.chain == pre.chain
            &&& post.proposed == pre.proposed
            &&& post.combat == pre.combat
            &&& if is_hero_at(pre.objects@, tp) {
                &&& only_hero_changed(pre.objects@, post.objects@, tp)
                &&& hero_at(post.objects@, tp) == (HeroBundle {
                    action_points: 0,
                    ..hero_at(pre.objects@, tp)
                })
            } else {
                post.objects == pre.objects
            }
        })
}

/// The action phase ends when the last participant has passed with nothing pending, staged or
/// on the chain; the turn player's action points drop to zero.
pub fn end_action_phase(game: &mut Game, changed: bool)
    requires
        old(game).wf(),
    ensures
        final(game).wf(),
        end_action_phase_post(*old(game), *final(game), changed),
{
    proof {
        reveal(end_action_phase_post);
    }
    if game.stack.is_empty() && game.attack_layer.0.is_none() && changed
        && game.priority.all_passed() && !game.chain.open && matches!(
        game.phase,
        GamePhases::ActionPhase
    ) {
        let tp = game.turn_player();
        if game.objects.is_hero(tp) {
            game.objects.set_action_points(tp, 0);
        }
        game.phase = GamePhases::EndPhase;
    }
}

/// What `trigger_end_phase` does: `post` is the game after it ran on `pre`.
#[verifier::opaque]
pub open spec fn trigger_end_phase_post(pre: Game, post: Game, changed: bool) -> bool {
    &&& (!(pre.phase == GamePhases::ActionPhase && pre.combat == Some(
            CombatSteps::CloseStep,
        ) && pre.stack@.len() == 0 && changed && pre.priority@.all_passed())
            ==> post == pre)
    &&& (pre.phase == GamePhases::ActionPhase && pre.combat == Some(
            CombatSteps::CloseStep,
        ) && pre.stack@.len() == 0 && changed && pre.priority@.all_passed() ==> {
            &&& post.phase == GamePhases::EndPhase
            &&& post.combat.is_none()
            &&& post.priority == pre.priority
            &&& post.objects == pre.objects
            &&& post.stack == pre.stack
            &&& post.attack_layer == pre.attack_layer
            &&& post.chain == pre.chain
            &&& post.proposed == pre.proposed
        })
}

/// An attack has closed, nothing is pending and all have passed: the action phase ends.
pub fn trigger_end_phase(game: &mut Game, changed: bool)
    requires
        old(game).wf(),
    ensures
        final(game).wf(),
        trigger_end_phase_post(*old(game), *final(game), changed),
{
    proof {
        reveal(trigger_end_phase_post);
    }
    if matches!(game.phase, GamePhases::ActionPhase) && matches!(
        game.combat,
        Some(CombatSteps::CloseStep)
    ) && game.stack.is_empty() && changed && game.priority.all_passed() {
        game.phase = GamePhases::EndPhase;
        game.combat = None;
    }
}

/// What `end_end_phase` does: `post` is the game after it ran on `pre`.
#[verifier::opaque]
pub open spec fn end_end_phase_post(pre: Game, post: Game) -> bool {
    &&& (!(pre.phase == GamePhases::EndPhase && pre.stack@.len() == 0)
            ==> post == pre)
    &&& (pre.phase == GamePhases::EndPhase && pre.stack@.len() == 0 ==> {
            let tp = pre.turn_player_spec();
            &&& post.phase == GamePhases::StartPhase
            &&& post.priority == pre.priority
            &&& post.stack == pre.stack
            &&& post.attack_layer == pre.attack_layer
            &&& post.chain == pre.chain
            &&& post.proposed == pre.proposed
            &&& post.combat == pre.combat
            &&& if is_hero_at(pre.objects@, tp) {
                &&& only_hero_changed(pre.objects@, post.objects@, tp)
                &&& hero_at(post.objects@, tp) == (HeroBundle {
                    resources: 0,
                    ..hero_at(pre.objects@, tp)
                })
            } else {
                post.objects == pre.objects
            }
        })
}

/// The end phase ends once nothing is pending: the turn player's resources drop to zero and
/// the next turn starts.
pub fn end_end_phase(game: &mut Game)
    requires
        old(game).wf(),
    ensures
        final(game).wf(),
        end_end_phase_post(*old(game), *final(game)),
{
    proof {
        reveal(end_end_phase_post);
    }
    if matches!(game.phase, GamePhases::EndPhase) && game.stack.is_empty() {
        let tp = game.turn_player();
        if game.objects.is_hero(tp) {
            game.objects.set_resources(tp, 0);
        }
        game.phase = GamePhases::StartPhase;
    }
}

} // verus!
