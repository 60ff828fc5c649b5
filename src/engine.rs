//! One tick of the engine: admission, then the phase and combat transitions, then the stack,
//! always in this order.
use crate::admission::{
    admission_outcome, evaluate_cost, evaluate_cost_post, resolve_stack, resolve_stack_post, Admission,
};
use crate::combat::{
    trigger_attack_step, trigger_attack_step_post, trigger_close_step, trigger_close_step_post,
    trigger_damage_step, trigger_damage_step_post, trigger_defend_step, trigger_defend_step_post,
    trigger_layer_step, trigger_layer_step_post, trigger_link_step, trigger_link_step_post,
    trigger_reaction_step, trigger_reaction_step_post, trigger_resolution_step,
    trigger_resolution_step_post,
};
use crate::effects::{on_attack_post, on_hit_post, play_post, Effects, ToxicityRed};
use crate::combat::{attack_power, total_defense};
use crate::game::{CombatSteps, Game, GamePhases};
use crate::objects::{card_at, is_card_at, CardBundle};
use crate::phases::{
    end_action_phase, end_action_phase_post, end_end_phase, end_end_phase_post, end_start_phase,
    end_start_phase_post, trigger_end_phase, trigger_end_phase_post,
};
use crate::priority::{Priority, PriorityView};
use crate::stack::GameEvent;
use vstd::prelude::*;

verus! {

/// What the previous tick left behind: a transition whose guard asks for a fresh observation
/// fires only where the state differs from this.
pub struct Watch {
    pub priority: Priority,
    pub staged: bool,
}

impl Watch {
    /// The state of `game` as it stands.
    pub fn of(game: &Game) -> (r: Watch)
        ensures
            r.priority@ == game.priority@,
            r.staged == game.attack_layer.0.is_some(),
    {
        Watch { priority: game.priority.snapshot(), staged: game.attack_layer.0.is_some() }
    }
}

/// What a tick did that the outside world needs to know.
pub struct TickReport {
    pub admission: Admission,
    /// The event that left the stack to have its card's effect carried out.
    pub resolved: Option<GameEvent>,
    /// The game before the tick and after each of its transitions, in order.
    pub states: Ghost<Seq<Game>>,
    /// The triggers before the tick and after each card effect, in order.
    pub triggers: Ghost<Seq<Effects>>,
}

/// Priority counts as changed for a transition when it differs from what the previous tick
/// left.
pub open spec fn changed_since(g: Game, seen: PriorityView) -> bool {
    g.priority@ != seen
}

/// The card that was played, as the registry holds it.
pub open spec fn played_card(g: Game, card: u32) -> Option<CardBundle> {
    if is_card_at(g.objects@, card) {
        Some(card_at(g.objects@, card))
    } else {
        None
    }
}

/// One tick, from `pre` to `post` (and from the triggers `pre_e` to `post_e`), given the
/// tracker `seen` and the staging slot's occupancy `seen_staged` that the previous tick left:
/// each transition in turn, each on the state the one before it left.
pub open spec fn ticked(
    pre: Game,
    seen: PriorityView,
    seen_staged: bool,
    pre_e: Effects,
    r: TickReport,
    post: Game,
    post_e: Effects,
) -> bool {
    let g = r.states@;
    let e = r.triggers@;
    &&& g.len() == 16 && e.len() == 4
    &&& g[0] == pre && g[15] == post && e[0] == pre_e && e[3] == post_e
    &&& evaluate_cost_post(g[0], g[1], r.admission)
    &&& if (r.admission == Admission::Stacked || r.admission == Admission::Staged)
        && pre.proposed is Some {
        play_post(e[0], e[1], played_card(g[1], pre.proposed->0.card))
    } else {
        e[1] == e[0]
    }
    &&& end_start_phase_post(g[1], g[2])
    &&& trigger_close_step_post(g[2], g[3], changed_since(g[2], seen))
    &&& trigger_link_step_post(g[3], g[4], changed_since(g[3], seen))
    &&& trigger_resolution_step_post(g[4], g[5])
    &&& trigger_damage_step_post(g[5], g[6], changed_since(g[5], seen))
    &&& on_hit_post(
        e[1],
        e[2],
        g[6],
        g[7],
        g[5].combat != Some(CombatSteps::DamageStep) && g[6].combat == Some(CombatSteps::DamageStep),
    )
    &&& trigger_defend_step_post(g[7], g[8], changed_since(g[7], seen))
    &&& trigger_reaction_step_post(g[8], g[9], changed_since(g[8], seen))
    &&& trigger_attack_step_post(g[9], g[10], changed_since(g[9], seen))
    &&& trigger_layer_step_post(
        g[10],
        g[11],
        g[10].attack_layer.0 is Some && (r.admission == Admission::Staged || !seen_staged),
    )
    &&& on_attack_post(e[2], e[3], g[11])
    &&& end_action_phase_post(g[11], g[12], changed_since(g[11], seen))
    &&& trigger_end_phase_post(g[12], g[13], changed_since(g[12], seen))
    &&& end_end_phase_post(g[13], g[14])
    &&& resolve_stack_post(g[14], g[15], r.resolved)
}

/// A tick with nothing proposed, at the start phase with an empty stack, ends in the action
/// phase.
pub proof fn lemma_tick_starts_action_phase(
    pre: Game,
    seen: PriorityView,
    seen_staged: bool,
    pre_e: Effects,
    r: TickReport,
    post: Game,
    post_e: Effects,
)
    requires
        pre.wf(),
        ticked(pre, seen, seen_staged, pre_e, r, post, post_e),
        pre.proposed is None,
        pre.phase == GamePhases::StartPhase,
        pre.stack@.len() == 0,
    ensures
        post.phase == GamePhases::ActionPhase,
{
    reveal(evaluate_cost_post);
    reveal(end_start_phase_post);
    reveal(trigger_close_step_post);
    reveal(trigger_link_step_post);
    reveal(trigger_resolution_step_post);
    reveal(trigger_damage_step_post);
    reveal(on_hit_post);
    reveal(trigger_defend_step_post);
    reveal(trigger_reaction_step_post);
    reveal(trigger_attack_step_post);
    reveal(trigger_layer_step_post);
    reveal(end_action_phase_post);
    reveal(trigger_end_phase_post);
    reveal(end_end_phase_post);
    reveal(resolve_stack_post);
    let g = r.states@;
    assert(g[2].phase == GamePhases::ActionPhase);
    assert(g[2].priority@.holding.len() > 0);
}

/// A tick with nothing proposed, in the action phase, where everyone has passed at the
/// reaction step with nothing pending and the attacking card still exists, ends at the damage
/// step with the attack a hit exactly when its power is at least the total defense.
pub proof fn lemma_tick_reaches_damage(
    pre: Game,
    seen: PriorityView,
    seen_staged: bool,
    pre_e: Effects,
    r: TickReport,
    post: Game,
    post_e: Effects,
)
    requires
        pre.wf(),
        ticked(pre, seen, seen_staged, pre_e, r, post, post_e),
        pre.proposed is None,
        pre.phase == GamePhases::ActionPhase,
        pre.step_ready(CombatSteps::ReactionStep, pre.priority@ != seen),
        attack_power(pre.objects@, pre.chain.links@.last().attack) is Some,
    ensures
        post.combat == Some(CombatSteps::DamageStep),
        post.chain.links@.last().hit == (pre.chain.links@.last().hit || attack_power(
            pre.objects@,
            pre.chain.links@.last().attack,
        )->0 >= total_defense(pre.objects@, pre.chain.links@.last())),
{
    reveal(evaluate_cost_post);
    reveal(end_start_phase_post);
    reveal(trigger_close_step_post);
    reveal(trigger_link_step_post);
    reveal(trigger_resolution_step_post);
    reveal(trigger_damage_step_post);
    reveal(on_hit_post);
    reveal(trigger_defend_step_post);
    reveal(trigger_reaction_step_post);
    reveal(trigger_attack_step_post);
    reveal(trigger_layer_step_post);
    reveal(end_action_phase_post);
    reveal(trigger_end_phase_post);
    reveal(end_end_phase_post);
    reveal(resolve_stack_post);
    let g = r.states@;
    assert(g[5] == pre);
    assert(g[6].combat == Some(CombatSteps::DamageStep));
}

/// Runs every transition once, with the card effects at their moments: admission, the end of
/// the start phase, the combat steps, the ends of the action and end phases, and the stack.
/// Priority counts as changed for a transition when it differs from what the previous tick
/// left; an attack counts as newly staged when this tick staged it or the slot was empty
/// before. The combat steps are tried from the last to the first, so that the combat advances
/// at most one step per tick; only the defend step comes before the reaction step, so that
/// declared blocks close the block window before the reaction step can open.
pub fn tick(game: &mut Game, watch: &mut Watch, effects: &mut Effects) -> (r: TickReport)
    requires
        old(game).wf(),
    ensures
        final(game).wf(),
        ticked(
            *old(game),
            old(watch).priority@,
            old(watch).staged,
            *old(effects),
            r,
            *final(game),
            *final(effects),
        ),
        final(watch).priority@ == final(game).priority@,
        final(watch).staged == final(game).attack_layer.0.is_some(),
        r.admission == admission_outcome(&*old(game)),
{
    let ghost mut gs: Seq<Game> = seq![*game];
    let ghost mut es: Seq<Effects> = seq![*effects];
    let proposed = game.proposed;
    let admission = evaluate_cost(game);
    proof { gs = gs.push(*game); }
    if admission == Admission::Stacked || admission == Admission::Staged {
        if let Some(e) = proposed {
            ToxicityRed::play(effects, game.objects.card(e.card));
        }
    }
    proof { es = es.push(*effects); }
    end_start_phase(game);
    proof { gs = gs.push(*game); }

    let changed = !game.priority.same_as(&watch.priority);
    trigger_close_step(game, changed);
    proof { gs = gs.push(*game); }
    let changed = !game.priority.same_as(&watch.priority);
    trigger_link_step(game, changed);
    proof { gs = gs.push(*game); }
    trigger_resolution_step(game);
    proof { gs = gs.push(*game); }
    let changed = !game.priority.same_as(&watch.priority);
    let before_damage = game.combat;
    trigger_damage_step(game, changed);
    proof { gs = gs.push(*game); }
    let entered_damage = before_damage != Some(CombatSteps::DamageStep) && game.combat == Some(
        CombatSteps::DamageStep,
    );
    ToxicityRed::on_hit(effects, game, entered_damage);
    proof { gs = gs.push(*game); es = es.push(*effects); }
    let changed = !game.priority.same_as(&watch.priority);
    trigger_defend_step(game, changed);
    proof { gs = gs.push(*game); }
    let changed = !game.priority.same_as(&watch.priority);
    trigger_reaction_step(game, changed);
    proof { gs = gs.push(*game); }
    let changed = !game.priority.same_as(&watch.priority);
    trigger_attack_step(game, changed);
    proof { gs = gs.push(*game); }
    let staged_now = game.attack_layer.0.is_some() && (admission == Admission::Staged
        || !watch.staged);
    trigger_layer_step(game, staged_now);
    proof { gs = gs.push(*game); }
    ToxicityRed::on_attack(effects, game);
    proof { es = es.push(*effects); }

    let changed = !game.priority.same_as(&watch.priority);
    end_action_phase(game, changed);
    proof { gs = gs.push(*game); }
    let changed = !game.priority.same_as(&watch.priority);
    trigger_end_phase(game, changed);
    proof { gs = gs.push(*game); }
    end_end_phase(game);
    proof { gs = gs.push(*game); }

    let resolved = resolve_stack(game);
    proof { gs = gs.push(*game); }
    *watch = Watch::of(game);
    TickReport { admission, resolved, states: Ghost(gs), triggers: Ghost(es) }
}

} // verus!
