//! The whole state of one game, owned in one place and handed to each transition.
use crate::objects::{object_at, Objects};
use crate::priority::Priority;
use crate::stack::{AttackLayer, Chain, GameEvent, Stack};
use vstd::prelude::*;

verus! {

#[derive(Clone, Copy, Debug, PartialEq, Eq, Structural)]
pub enum GamePhases {
    StartPhase,
    ActionPhase,
    EndPhase,
}

#[derive(Clone, Copy, Debug, PartialEq, Eq, Structural)]
pub enum CombatSteps {
    LayerStep,
    AttackStep,
    DefendStep,
    ReactionStep,
    DamageStep,
    ResolutionStep,
    LinkStep,
    CloseStep,
}

/// The steps during which the chain's most recent link is the attack being resolved.
pub open spec fn step_has_link(step: Option<CombatSteps>) -> bool {
    match step {
        Some(CombatSteps::AttackStep) | Some(CombatSteps::DefendStep) | Some(
            CombatSteps::ReactionStep,
        ) | Some(CombatSteps::DamageStep) | Some(CombatSteps::ResolutionStep) | Some(
            CombatSteps::LinkStep,
        ) => true,
        _ => false,
    }
}

pub struct Game {
    pub objects: Objects,
    pub priority: Priority,
    pub stack: Stack,
    pub attack_layer: AttackLayer,
    pub chain: Chain,
    /// An action that passed its checks and waits for its cost to be paid.
    pub proposed: Option<GameEvent>,
    pub phase: GamePhases,
    pub combat: Option<CombatSteps>,
}

impl Game {
    /// At least one participant is tracked, none twice; a step that works on a chain link has
    /// one; and a chain with a link is open.
    pub open spec fn wf(&self) -> bool {
        &&& self.priority@.holding.len() + self.priority@.passed.len() > 0
        &&& self.priority@.unique()
        &&& self.chain.links@.len() > 0 ==> self.chain.open
        &&& step_has_link(self.combat) ==> self.chain.links@.len() > 0
    }

    /// The head of holding, else the head of passed.
    pub open spec fn turn_player_spec(&self) -> u32 {
        if self.priority@.holding.len() > 0 {
            self.priority@.holding[0]
        } else {
            self.priority@.passed[0]
        }
    }

    /// Every participant has passed, nothing is pending, and the combat is at `step`, which
    /// was just observed (`changed`).
    pub open spec fn step_ready(&self, step: CombatSteps, changed: bool) -> bool {
        &&& self.combat == Some(step)
        &&& changed
        &&& self.priority@.all_passed()
        &&& self.stack@.len() == 0
    }

    /// A game at its start phase, with the participants in the given turn order.
    pub fn new(objects: Objects, order: Vec<u32>) -> (r: Game)
        requires
            order@.len() > 0,
            order@.no_duplicates(),
        ensures
            r.wf(),
            r.objects == objects,
            r.priority@.holding == order@,
            r.priority@.passed.len() == 0,
            !r.priority.hold && !r.priority.blocks && !r.priority.card_played,
            r.stack@.len() == 0,
            r.attack_layer.0.is_none(),
            r.chain.links@.len() == 0 && !r.chain.open,
            r.proposed.is_none(),
            r.phase == GamePhases::StartPhase,
            r.combat.is_none(),
    {
        Game {
            objects,
            priority: Priority::new(order),
            stack: Stack::new(),
            attack_layer: AttackLayer(None),
            chain: Chain::new(),
            proposed: None,
            phase: GamePhases::StartPhase,
            combat: None,
        }
    }

    pub fn turn_player(&self) -> (r: u32)
        requires
            self.wf(),
        ensures
            r == self.turn_player_spec(),
    {
        self.priority.turn_player()
    }

    /// Whether the object with id `id` still exists.
    pub fn resolves(&self, id: u32) -> (r: bool)
        ensures
            r == object_at(self.objects@, id).is_some(),
    {
        self.objects.resolves(id)
    }
}

} // verus!
