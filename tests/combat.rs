use tcg_rules::admission::{evaluate_cost, read_blocks, read_card, read_priority, Admission, CostError, IntentError};
use tcg_rules::effects::Effects;
use tcg_rules::engine::{tick, Watch};
use tcg_rules::game::{CombatSteps, Game, GamePhases};
use tcg_rules::objects::{
    CardBundle, CardClass, CardClassTypes, CardSubTypes, CardType, Color, GameObject, HeroBundle, Objects, SubType,
};

const ATTACK: u32 = 0;
const PITCH: u32 = 1;
const FIRST: u32 = 2;
const SECOND: u32 = 3;
const BLOCKER: u32 = 4;
const SPELL: u32 = 5;

fn card(name: &str, cost: Option<u16>, attack: Option<u16>, defense: Option<u16>, card_type: CardType, subtypes: Vec<SubType>) -> GameObject {
    GameObject::Card(CardBundle {
        name: name.to_string(),
        card_id: None,
        cost,
        color: Some(Color::Yellow),
        attack,
        defense,
        card_type,
        subtypes: CardSubTypes(subtypes),
        class: Some(CardClass::SingleClass(CardClassTypes::Generic)),
        go_again: false,
    })
}

/// Two heroes, an attack of power 3, a resource card, a 2-defense blocker and a 1-cost action.
/// The turn order is chosen so that FIRST is the turn player once priority cycles.
fn new_game() -> Game {
    let mut objects = Objects::new();
    objects.spawn(card("Basic Attack", Some(1), Some(3), Some(2), CardType::Action, vec![SubType::Attack]));
    objects.spawn(card("Basic Resource", None, None, None, CardType::Resource, vec![]));
    objects.spawn(GameObject::Hero(HeroBundle::named("Player 1")));
    objects.spawn(GameObject::Hero(HeroBundle::named("Player 2")));
    objects.spawn(card("Blocker", Some(0), None, Some(2), CardType::Action, vec![]));
    objects.spawn(card("Spell", Some(1), None, None, CardType::Action, vec![]));
    Game::new(objects, vec![SECOND, FIRST])
}

fn health(game: &Game, id: u32) -> u16 {
    game.objects.hero(id).unwrap().health
}

struct Driver {
    game: Game,
    watch: Watch,
    effects: Effects,
}

impl Driver {
    fn start() -> Driver {
        let game = new_game();
        let watch = Watch::of(&game);
        let mut d = Driver { game, watch, effects: Effects::new() };
        d.tick();
        d
    }

    fn tick(&mut self) -> Admission {
        tick(&mut self.game, &mut self.watch, &mut self.effects).admission
    }

    fn pass(&mut self, hero: u32) {
        assert_eq!(read_priority(&mut self.game, hero), Ok(()));
        self.tick();
    }

    fn pass_all(&mut self) {
        self.pass(FIRST);
        self.pass(SECOND);
    }

    /// FIRST attacks SECOND and the attack enters the chain.
    fn attack(&mut self) {
        self.game.objects.set_resources(FIRST, 2);
        assert_eq!(read_card(&mut self.game, FIRST, ATTACK, Some(SECOND)), Ok(()));
        assert_eq!(self.tick(), Admission::Staged);
        assert_eq!(self.game.combat, Some(CombatSteps::LayerStep));
        self.pass_all();
        assert_eq!(self.game.combat, Some(CombatSteps::AttackStep));
        self.pass_all();
        assert_eq!(self.game.combat, Some(CombatSteps::DefendStep));
        assert!(self.game.priority.is_blocking(SECOND));
    }

    /// Blocks are declared, then everyone passes through the reaction step.
    fn block_and_reach_damage(&mut self, blocks: Vec<u32>) {
        assert_eq!(read_blocks(&mut self.game, SECOND, blocks), Ok(()));
        self.tick();
        assert!(!self.game.priority.blocks);
        assert_eq!(self.game.combat, Some(CombatSteps::DefendStep));
        self.pass_all();
        assert_eq!(self.game.combat, Some(CombatSteps::ReactionStep));
        self.pass_all();
        assert_eq!(self.game.combat, Some(CombatSteps::DamageStep));
    }
}

#[test]
fn action_phase_starts_with_turn_player_and_one_action_point() {
    let d = Driver::start();
    assert_eq!(d.game.phase, GamePhases::ActionPhase);
    assert_eq!(d.game.turn_player(), FIRST);
    assert_eq!(d.game.objects.hero(FIRST).unwrap().action_points, 1);
    assert_eq!(d.game.objects.hero(SECOND).unwrap().action_points, 0);
}

#[test]
fn playing_a_one_cost_action_pays_and_stacks() {
    let mut d = Driver::start();
    d.game.objects.set_resources(FIRST, 2);
    assert_eq!(read_card(&mut d.game, FIRST, SPELL, None), Ok(()));
    assert_eq!(evaluate_cost(&mut d.game), Admission::Stacked);
    let hero = d.game.objects.hero(FIRST).unwrap();
    assert_eq!(hero.resources, 1);
    assert_eq!(hero.action_points, 0);
    assert_eq!(d.game.stack.0.len(), 1);
    assert_eq!(d.game.stack.0[0].card, SPELL);
    assert!(d.game.priority.hold);
    assert!(d.game.priority.has_priority(FIRST));
    assert!(d.game.priority.card_played);
}

#[test]
fn unblocked_attack_hits_for_full_power() {
    let mut d = Driver::start();
    d.attack();
    d.block_and_reach_damage(vec![]);
    let link = d.game.chain.links.last().unwrap();
    assert!(link.hit);
    assert_eq!(health(&d.game, SECOND), 40 - 3);
    assert_eq!(health(&d.game, FIRST), 40);
}

#[test]
fn blocked_attack_deals_the_difference() {
    let mut d = Driver::start();
    d.attack();
    d.block_and_reach_damage(vec![BLOCKER]);
    let link = d.game.chain.links.last().unwrap();
    assert_eq!(link.blocks, vec![BLOCKER]);
    assert!(link.hit);
    assert_eq!(health(&d.game, SECOND), 40 - 1);
}

#[test]
fn attack_weaker_than_defense_does_not_hit() {
    let mut d = Driver::start();
    d.game.objects.spawn(card("Wall", Some(0), None, Some(2), CardType::Action, vec![]));
    d.attack();
    d.block_and_reach_damage(vec![BLOCKER, 6]);
    assert!(!d.game.chain.links.last().unwrap().hit);
    assert_eq!(health(&d.game, SECOND), 40);
}

#[test]
fn no_action_points_rejects_and_releases() {
    let mut d = Driver::start();
    d.game.objects.set_action_points(FIRST, 0);
    d.game.objects.set_resources(FIRST, 2);
    let phase = d.game.phase;
    let combat = d.game.combat;
    assert_eq!(read_card(&mut d.game, FIRST, SPELL, None), Ok(()));
    assert_eq!(evaluate_cost(&mut d.game), Admission::Rejected(CostError::NoActionPoints));
    assert_eq!(d.game.objects.hero(FIRST).unwrap().resources, 2);
    assert!(!d.game.priority.hold);
    assert!(d.game.proposed.is_none());
    assert!(d.game.stack.is_empty());
    assert_eq!(d.game.phase, phase);
    assert_eq!(d.game.combat, combat);
}

#[test]
fn shortfall_is_reported_and_the_proposal_waits() {
    let mut d = Driver::start();
    d.game.objects.set_resources(FIRST, 0);
    assert_eq!(read_card(&mut d.game, FIRST, SPELL, None), Ok(()));
    assert_eq!(evaluate_cost(&mut d.game), Admission::Rejected(CostError::Shortfall(1)));
    assert!(d.game.proposed.is_some());
    assert!(!d.game.priority.hold);
    assert_eq!(d.game.objects.hero(FIRST).unwrap().action_points, 1);
}

#[test]
fn pitching_pays_for_a_waiting_proposal() {
    let mut d = Driver::start();
    d.game.objects.set_resources(FIRST, 0);
    assert_eq!(read_card(&mut d.game, FIRST, SPELL, None), Ok(()));
    assert_eq!(d.tick(), Admission::Rejected(CostError::Shortfall(1)));
    assert_eq!(tcg_rules::admission::read_pitch(&mut d.game, FIRST, ATTACK), Ok(()));
    assert_eq!(d.game.objects.hero(FIRST).unwrap().resources, 2);
    assert_eq!(d.game.objects.hero(FIRST).unwrap().pitch[0], ATTACK);
    assert_eq!(d.tick(), Admission::Stacked);
    assert_eq!(d.game.objects.hero(FIRST).unwrap().resources, 1);
}

#[test]
fn intents_without_priority_are_refused() {
    let mut d = Driver::start();
    assert_eq!(read_priority(&mut d.game, SECOND), Err(IntentError::NoPriority));
    assert_eq!(read_card(&mut d.game, SECOND, SPELL, None), Err(IntentError::NoPriority));
    assert_eq!(read_card(&mut d.game, FIRST, PITCH, None), Err(IntentError::NotPlayable));
    assert_eq!(read_card(&mut d.game, FIRST, ATTACK, None), Err(IntentError::TargetNeeded));
    assert_eq!(read_card(&mut d.game, FIRST, ATTACK, Some(99)), Err(IntentError::UnknownTarget));
    assert_eq!(read_card(&mut d.game, FIRST, 99, None), Err(IntentError::UnknownCard));
    assert_eq!(read_blocks(&mut d.game, FIRST, vec![]), Err(IntentError::NotBlocking));
    assert_eq!(tcg_rules::admission::read_pitch(&mut d.game, FIRST, PITCH), Err(IntentError::NothingToPitchFor));
}

#[test]
fn blocks_must_have_defense() {
    let mut d = Driver::start();
    d.attack();
    assert_eq!(read_blocks(&mut d.game, SECOND, vec![SPELL]), Err(IntentError::NoDefense(SPELL)));
    assert_eq!(read_blocks(&mut d.game, SECOND, vec![77]), Err(IntentError::UnknownObject(77)));
    assert!(d.game.chain.links.last().unwrap().blocks.is_empty());
}

#[test]
fn attack_on_a_vanished_target_is_abandoned() {
    let mut d = Driver::start();
    d.game.objects.set_resources(FIRST, 2);
    let target = d.game.objects.spawn(card("Decoy", None, None, None, CardType::Resource, vec![]));
    assert_eq!(read_card(&mut d.game, FIRST, ATTACK, Some(target)), Ok(()));
    assert_eq!(d.tick(), Admission::Staged);
    d.game.objects.despawn(target);
    d.pass_all();
    assert_eq!(d.game.combat, Some(CombatSteps::CloseStep));
    assert!(d.game.chain.links.is_empty());
}

#[test]
fn full_attack_ends_the_turn_and_the_next_begins() {
    let mut d = Driver::start();
    d.attack();
    d.block_and_reach_damage(vec![]);
    d.tick();
    assert_eq!(d.game.combat, Some(CombatSteps::ResolutionStep));
    assert!(d.game.chain.links.last().unwrap().closed);
    d.pass_all();
    assert_eq!(d.game.combat, Some(CombatSteps::LinkStep));
    d.pass_all();
    assert_eq!(d.game.combat, Some(CombatSteps::CloseStep));
    d.game.objects.set_resources(FIRST, 4);
    d.pass(FIRST);
    d.pass(SECOND);
    // The action and end phases ended within that tick.
    assert_eq!(d.game.phase, GamePhases::StartPhase);
    assert_eq!(d.game.combat, None);
    assert_eq!(d.game.objects.hero(FIRST).unwrap().resources, 0);
    d.tick();
    assert_eq!(d.game.phase, GamePhases::ActionPhase);
    assert_eq!(d.game.turn_player(), SECOND);
    assert_eq!(d.game.objects.hero(SECOND).unwrap().action_points, 1);
}

#[test]
fn stack_resolves_once_all_pass() {
    let mut d = Driver::start();
    d.game.objects.set_resources(FIRST, 2);
    assert_eq!(read_card(&mut d.game, FIRST, SPELL, None), Ok(()));
    assert_eq!(d.tick(), Admission::Stacked);
    d.game.priority.release_priority();
    d.pass(FIRST);
    assert_eq!(read_priority(&mut d.game, SECOND), Ok(()));
    let report = tick(&mut d.game, &mut d.watch, &mut d.effects);
    assert_eq!(report.resolved.map(|e| e.card), Some(SPELL));
    assert!(d.game.stack.is_empty());
}

#[test]
fn pitch_errors() {
    let mut d = Driver::start();
    d.game.objects.set_resources(FIRST, 0);
    assert_eq!(read_card(&mut d.game, FIRST, SPELL, None), Ok(()));
    assert_eq!(d.tick(), Admission::Rejected(CostError::Shortfall(1)));
    let no_color = d.game.objects.spawn(GameObject::Card(CardBundle {
        name: "Grey".to_string(),
        card_id: None,
        cost: None,
        color: None,
        attack: None,
        defense: None,
        card_type: CardType::Resource,
        subtypes: CardSubTypes(vec![]),
        class: None,
        go_again: false,
    }));
    assert_eq!(tcg_rules::admission::read_pitch(&mut d.game, FIRST, no_color), Err(IntentError::NotPitchable));
    d.game.objects.set_resources(FIRST, u16::MAX);
    assert_eq!(tcg_rules::admission::read_pitch(&mut d.game, FIRST, PITCH), Err(IntentError::ResourceOverflow));
    assert_eq!(d.game.objects.hero(FIRST).unwrap().resources, u16::MAX);
}

#[test]
fn pitch_by_a_non_hero_is_refused() {
    let mut objects = Objects::new();
    objects.spawn(card("Basic Resource", None, None, None, CardType::Resource, vec![]));
    let mut game = Game::new(objects, vec![0]);
    game.proposed = Some(tcg_rules::stack::GameEvent { target: None, card: 0, actor: 0, attack: false });
    assert_eq!(tcg_rules::admission::read_pitch(&mut game, 0, 0), Err(IntentError::UnknownHero));
}

#[test]
fn blocks_without_an_attack_on_the_chain() {
    let mut d = Driver::start();
    d.game.priority.blocks = true;
    assert_eq!(read_blocks(&mut d.game, FIRST, vec![]), Err(IntentError::NoChainLink));
}

#[test]
fn gone_card_or_actor_drops_the_proposal() {
    let mut d = Driver::start();
    assert_eq!(read_card(&mut d.game, FIRST, SPELL, None), Ok(()));
    d.game.objects.despawn(SPELL);
    assert_eq!(evaluate_cost(&mut d.game), Admission::Rejected(CostError::SourceGone));
    assert!(d.game.proposed.is_none());
    assert!(!d.game.priority.hold);

    let mut d = Driver::start();
    assert_eq!(read_card(&mut d.game, FIRST, ATTACK, Some(SECOND)), Ok(()));
    d.game.objects.despawn(FIRST);
    assert_eq!(evaluate_cost(&mut d.game), Admission::Rejected(CostError::ActorGone));
    assert!(d.game.proposed.is_none());
    assert_eq!(evaluate_cost(&mut d.game), Admission::Idle);
}

#[test]
fn attack_whose_card_vanished_is_abandoned_at_damage() {
    let mut d = Driver::start();
    d.attack();
    d.game.objects.despawn(ATTACK);
    assert_eq!(read_blocks(&mut d.game, SECOND, vec![]), Ok(()));
    d.tick();
    d.pass_all();
    assert_eq!(d.game.combat, Some(CombatSteps::ReactionStep));
    d.pass_all();
    // Abandoned at the close step with everyone passed, the turn ends within the same tick.
    assert_eq!(d.game.combat, None);
    assert_eq!(d.game.phase, GamePhases::StartPhase);
    assert!(!d.game.chain.links.last().unwrap().hit);
    assert!(!d.game.priority.hold);
    assert_eq!(health(&d.game, SECOND), 40);
}

#[test]
fn attack_staged_mid_combat_is_turned_away() {
    let mut d = Driver::start();
    d.attack();
    d.game.attack_layer.0 = Some(tcg_rules::stack::GameEvent { target: Some(SECOND), card: ATTACK, actor: FIRST, attack: true });
    tcg_rules::combat::trigger_layer_step(&mut d.game, true);
    assert!(d.game.attack_layer.0.is_none());
    assert_eq!(d.game.combat, Some(CombatSteps::DefendStep));
}

#[test]
fn blocks_from_two_defenders_accumulate() {
    let mut objects = Objects::new();
    objects.spawn(card("Basic Attack", Some(1), Some(3), Some(2), CardType::Action, vec![SubType::Attack]));
    objects.spawn(card("Basic Resource", None, None, None, CardType::Resource, vec![]));
    objects.spawn(GameObject::Hero(HeroBundle::named("Ann")));
    objects.spawn(GameObject::Hero(HeroBundle::named("Bo")));
    objects.spawn(card("Blocker", Some(0), None, Some(2), CardType::Action, vec![]));
    objects.spawn(card("Spell", Some(1), None, None, CardType::Action, vec![]));
    let third = objects.spawn(GameObject::Hero(HeroBundle::named("Cy")));
    let second_blocker = objects.spawn(card("Shield", Some(0), None, Some(1), CardType::Instant, vec![]));
    let game = Game::new(objects, vec![third, FIRST, SECOND]);
    let watch = Watch::of(&game);
    let mut d = Driver { game, watch, effects: Effects::new() };
    d.tick();
    assert_eq!(d.game.turn_player(), FIRST);
    d.game.objects.set_resources(FIRST, 2);
    assert_eq!(read_card(&mut d.game, FIRST, ATTACK, Some(SECOND)), Ok(()));
    assert_eq!(d.tick(), Admission::Staged);
    for hero in [FIRST, SECOND, third] {
        d.pass(hero);
    }
    assert_eq!(d.game.combat, Some(CombatSteps::AttackStep));
    for hero in [FIRST, SECOND, third] {
        d.pass(hero);
    }
    assert_eq!(d.game.combat, Some(CombatSteps::DefendStep));
    assert_eq!(read_blocks(&mut d.game, SECOND, vec![BLOCKER]), Ok(()));
    d.tick();
    assert!(d.game.priority.is_blocking(third));
    assert_eq!(read_blocks(&mut d.game, third, vec![second_blocker]), Ok(()));
    d.tick();
    assert_eq!(d.game.chain.links.last().unwrap().blocks, vec![BLOCKER, second_blocker]);
    assert!(!d.game.priority.blocks);
    for hero in [FIRST, SECOND, third] {
        d.pass(hero);
    }
    assert_eq!(d.game.combat, Some(CombatSteps::ReactionStep));
    for hero in [FIRST, SECOND, third] {
        d.pass(hero);
    }
    assert_eq!(d.game.combat, Some(CombatSteps::DamageStep));
    // Power 3 against a defense of 2 + 1: a hit for no damage.
    assert!(d.game.chain.links.last().unwrap().hit);
    assert_eq!(health(&d.game, SECOND), 40);
}
