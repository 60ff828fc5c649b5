use tcg_rules::base_traits::{Buildable, Damageable, Playable, Repairable, Scrappable};
use tcg_rules::constructs::Wall;
use tcg_rules::creatures::{Bird, Creature, CreatureType, Monkey, Rat, Squirrel};
use tcg_rules::evocations::Lightning;
use tcg_rules::generators::{BirdGenerator, Generator, MonkeyGenerator, RatGenerator, SquirrelGenerator};

#[test]
fn creatures_know_their_type() {
    assert_eq!(Bird::build().creature_type(), CreatureType::Flyer);
    assert_eq!(Rat::build().creature_type(), CreatureType::Plague);
    assert_eq!(Squirrel::build().creature_type(), CreatureType::Scavanger);
    assert_eq!(Monkey::build().damage(), 1);
}

#[test]
fn generators_take_damage_and_repair_up_to_base() {
    let mut g = BirdGenerator::build();
    assert_eq!(g.health(), 10);
    g.damage(7);
    assert_eq!(g.health(), 3);
    let g = g.repair();
    assert_eq!(g.health(), 8);
    let g = g.repair();
    assert_eq!(g.health(), 10);
    assert_eq!(g.play_cost().0, 1);
    assert_eq!(g.gen_cost().0, 1);
    assert_eq!(g.gen_time().0, 1);
    assert_eq!(g.gen().creature_type(), CreatureType::Flyer);
    assert_eq!(RatGenerator::build().gen().creature_type(), CreatureType::Plague);
    assert_eq!(SquirrelGenerator::build().gen().creature_type(), CreatureType::Scavanger);
    assert_eq!(MonkeyGenerator::build().gen().creature_type(), CreatureType::Destroyer);
}

#[test]
fn walls_scrap_for_two_tokens() {
    let mut w = Wall::build();
    w.damage(9);
    let w = w.repair();
    assert_eq!(w.scrap().0, 2);
    assert_eq!(w.play_cost().0, 1);
    assert_eq!(w.repair_amount(), 5);
}

#[test]
fn lightning_costs_two() {
    let l = Lightning::build();
    assert_eq!(l.damage, 10);
    assert_eq!(l.play_cost().0, 2);
}
