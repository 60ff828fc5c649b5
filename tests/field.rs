use tcg_rules::field::cards::{
    CardType, Construct, ConstructType, Creature, CreatureGen, CreatureType, Evocation, EvocationType, Evokable,
    Generator,
};
use tcg_rules::field::field::{Half, MyHalf};
use tcg_rules::field::instances::{bird_generator, flimsy_wall, lightning, ramp_wall, spikes, thunder};
use tcg_rules::field::internal_generators::{BirdGenerator, InternalGenerator, MonkeyGenerator, RatGenerator};
use tcg_rules::field::zones::{
    ConstructZone, CreatureZone, Deck, Discard, EvocationZone, GeneratorZone, Hand, MaterialPool, ResourcePool,
};

fn creature(name: &str, creature_type: CreatureType, health: u32) -> Creature {
    Creature { name: name.to_string(), creature_type, health, damage: 1 }
}

fn wall(blocks_friendly: bool) -> Construct {
    Construct::new(ConstructType::Wall { blocks_friendly }, 5, 5, 1)
}

fn names(cs: &[Creature]) -> Vec<String> {
    cs.iter().map(|c| c.name.clone()).collect()
}

#[test]
fn constructs_erode_and_break() {
    let mut c = Construct::new(ConstructType::Trap { damage: 3 }, 5, 5, 2);
    c.apply_erosion();
    assert_eq!(c.health, 3);
    let c = c.erode().erode();
    assert_eq!(c.health, 0);
    assert!(c.broken());
    assert!(!c.blocks());
    assert!(wall(true).blocks_friendly() && wall(true).blocks());
    assert!(!wall(false).blocks_friendly() && wall(false).blocks());
}

#[test]
fn creatures_take_damage() {
    let c = creature("Bird", CreatureType::Flyer, 2);
    assert!(c.flies() && c.alive());
    let mut c = c.inflict(1);
    assert_eq!(c.health, 1);
    c.inflict_mut(5);
    assert_eq!(c.health, 0);
    assert!(!c.alive());
}

#[test]
fn generators_make_their_creature_once_primed() {
    let mut zone = GeneratorZone::new();
    zone.add(Generator::new(1, InternalGenerator::Rat(RatGenerator {})));
    zone.add(Generator::new(2, InternalGenerator::Monkey(MonkeyGenerator {})));
    assert!(zone.run().is_empty());
    zone.prime(1);
    assert!(zone.borrow(1).unwrap().is_primed());
    let made = zone.run();
    assert_eq!(names(&made), vec!["Monkey"]);
    assert_eq!(made[0].creature_type, CreatureType::Destroyer);
    assert_eq!(BirdGenerator {}.gen().name, "Bird");
}

#[test]
fn deploying_past_a_friendly_blocking_wall_lets_only_flyers_through() {
    let mut zone = ConstructZone::new();
    let mix = || vec![creature("Bird", CreatureType::Flyer, 1), creature("Rat", CreatureType::Plague, 1)];
    let (advanced, blocked) = zone.deploy_creatures(mix());
    assert_eq!((names(&advanced).len(), blocked.len()), (2, 0));
    zone.add(wall(false));
    let (advanced, _) = zone.deploy_creatures(mix());
    assert_eq!(advanced.len(), 2);
    let (back, held) = zone.retreat_creatures(mix());
    assert_eq!((names(&back), names(&held)), (vec!["Bird".to_string()], vec!["Rat".to_string()]));
    zone.add(wall(true));
    let (advanced, blocked) = zone.invade_creatures(mix());
    assert_eq!((names(&advanced), names(&blocked)), (vec!["Bird".to_string()], vec!["Rat".to_string()]));
}

#[test]
fn scheduled_constructs_enter_and_erosion_removes_broken_ones() {
    let mut zone = ConstructZone::new();
    zone.scheduled.push(Construct::new(ConstructType::Trap { damage: 1 }, 1, 1, 1));
    zone.scheduled.push(wall(true));
    zone.run();
    assert!(zone.scheduled.is_empty());
    assert_eq!(zone.constructs.len(), 2);
    zone.apply_erosion();
    assert_eq!(zone.constructs.len(), 1);
    assert_eq!(zone.constructs[0].health, 4);
}

#[test]
fn evocations_keep_only_the_fallen() {
    let mut zone = EvocationZone::new();
    zone.load_creatures(vec![creature("A", CreatureType::Flyer, 1), creature("B", CreatureType::Plague, 3)]);
    zone.add(Evocation::new(EvocationType::Damage { dmg: 1 }));
    zone.add(Evocation::new(EvocationType::Stun { duration: 2 }));
    zone.run();
    assert!(zone.evocations.is_empty());
    let left = zone.drain_creatures();
    assert_eq!(names(&left), vec!["A"]);
    assert_eq!(left[0].health, 0);
    let e = Evocation::new(EvocationType::Damage { dmg: 2 });
    assert_eq!(e.evoke(creature("C", CreatureType::Flyer, 3)).health, 1);
}

#[test]
fn creature_zone_drains_and_loads() {
    let mut zone = CreatureZone::new();
    zone.add(creature("A", CreatureType::Flyer, 1));
    zone.load(vec![creature("B", CreatureType::Flyer, 1)]);
    assert_eq!(names(&zone.drain()), vec!["A", "B"]);
    assert!(zone.creatures.is_empty());
}

#[test]
fn resource_pool_pays_only_what_it_holds() {
    let mut pool = ResourcePool(3);
    assert!(pool.pay_cost(2));
    assert_eq!(pool.0, 1);
    assert!(!pool.pay_cost(2));
    assert_eq!(pool.0, 1);
}

#[test]
fn card_instances() {
    assert!(matches!(bird_generator().content, CardType::Generator(_)));
    assert_eq!(flimsy_wall().name, "Flimsy Wall");
    assert!(matches!(ramp_wall().content, CardType::Construct(c) if !c.blocks_friendly()));
    assert!(matches!(spikes().content, CardType::Construct(c) if c.construct_type == ConstructType::Trap { damage: 3 }));
    assert_eq!(lightning().cost, 1);
    assert_eq!(thunder().name, "Lightning");
}

fn half(resources: u32) -> MyHalf {
    MyHalf(Half {
        evocations: EvocationZone::new(),
        constructs: ConstructZone::new(),
        generators: GeneratorZone::new(),
        creatures: CreatureZone::new(),
        discard: Discard { cards: Vec::new() },
        hand: Hand::new(),
        deck: Deck::new(),
        materials: MaterialPool(0),
        resources: ResourcePool(resources),
    })
}

#[test]
fn a_half_draws_plays_and_primes() {
    let mut me = half(2);
    me.0.deck.cards.push_back(flimsy_wall());
    me.0.deck.cards.push_back(bird_generator());
    me.draw_card();
    me.draw_card();
    me.draw_card();
    assert_eq!(me.0.hand.cards.len(), 2);
    assert_eq!(me.0.hand.cards[0].name, "Bird Generator");
    me.play_card_from_hand(0);
    assert_eq!(me.0.resources.0, 1);
    assert_eq!(me.0.generators.generators.len(), 1);
    me.play_card_from_hand(5);
    assert_eq!(me.0.hand.cards.len(), 1);
    me.allocate_resources_to_generator(0);
    assert_eq!(me.0.resources.0, 0);
    assert!(me.0.generators.generators[0].primed);
    me.allocate_resources_to_generator(0);
    assert_eq!(me.0.resources.0, 0);
}

#[test]
fn a_half_runs_a_round() {
    let mut me = half(0);
    me.0.creatures.add(creature("Bird", CreatureType::Flyer, 1));
    me.0.creatures.add(creature("Rat", CreatureType::Plague, 2));
    me.0.constructs.scheduled.push(wall(true));
    me.0.evocations.add(Evocation::new(EvocationType::Damage { dmg: 1 }));
    me.run();
    assert_eq!(me.0.constructs.constructs.len(), 1);
    assert!(me.0.evocations.evocations.is_empty());
    // The bird flew past the wall and fell to the lightning; the rat was held back.
    assert_eq!(names(&me.0.creatures.creatures), vec!["Rat", "Bird"]);
}
