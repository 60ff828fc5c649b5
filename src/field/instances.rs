//! The cards of the prototype's card pool.
use crate::field::cards::{Card, CardType, Construct, ConstructType, Evocation, EvocationType, Generator};
use crate::field::internal_generators::{BirdGenerator, InternalGenerator};
use vstd::prelude::*;

verus! {

/// A card that holds a generator of `gen_cost` around `internal_generator`.
fn simple_generator(
    name: String,
    description: String,
    internal_generator: InternalGenerator,
    cost: u32,
    gen_cost: u32,
) -> (r: Card)
    ensures
        r.cost == cost,
        r.name@ == name@,
        r.description@ == description@,
        r.content == CardType::Generator(
            Generator { gen_cost, creature_gen: internal_generator, primed: false },
        ),
{
    let generator = Generator::new(gen_cost, internal_generator);
    Card { cost, name, description, content: CardType::Generator(generator) }
}

/// The bird generator card; every simple generator card makes birds.
pub fn bird_generator() -> (r: Card)
    ensures
        r.cost == 1,
        r.name@ == "Bird Generator"@,
        r.content == CardType::Generator(
            Generator { gen_cost: 1, creature_gen: InternalGenerator::Bird(BirdGenerator {  }), primed: false },
        ),
{
    simple_generator(
        "Bird Generator".to_owned(),
        "A simple bird generator.".to_owned(),
        InternalGenerator::Bird(BirdGenerator {  }),
        1,
        1,
    )
}

/// The rat generator card; every simple generator card makes birds.
pub fn rat_generator() -> (r: Card)
    ensures
        r.cost == 1,
        r.name@ == "Rat Generator"@,
        r.content == CardType::Generator(
            Generator { gen_cost: 1, creature_gen: InternalGenerator::Bird(BirdGenerator {  }), primed: false },
        ),
{
    simple_generator(
        "Rat Generator".to_owned(),
        "A simple rat generator.".to_owned(),
        InternalGenerator::Bird(BirdGenerator {  }),
        1,
        1,
    )
}

/// The squirrel generator card; every simple generator card makes birds.
pub fn squirrel_generator() -> (r: Card)
    ensures
        r.cost == 1,
        r.name@ == "Squirrel Generator"@,
        r.content == CardType::Generator(
            Generator { gen_cost: 1, creature_gen: InternalGenerator::Bird(BirdGenerator {  }), primed: false },
        ),
{
    simple_generator(
        "Squirrel Generator".to_owned(),
        "A simple squirrel generator.".to_owned(),
        InternalGenerator::Bird(BirdGenerator {  }),
        1,
        1,
    )
}

/// The monkey generator card; every simple generator card makes birds.
pub fn monkey_generator() -> (r: Card)
    ensures
        r.cost == 1,
        r.name@ == "Monkey Generator"@,
        r.content == CardType::Generator(
            Generator { gen_cost: 1, creature_gen: InternalGenerator::Bird(BirdGenerator {  }), primed: false },
        ),
{
    simple_generator(
        "Monkey Generator".to_owned(),
        "A simple monkey generator".to_owned(),
        InternalGenerator::Bird(BirdGenerator {  }),
        1,
        1,
    )
}

pub fn flimsy_wall() -> (r: Card)
    ensures
        r.cost == 1,
        r.name@ == "Flimsy Wall"@,
        r.content == CardType::Construct(
            Construct { construct_type: ConstructType::Wall { blocks_friendly: true }, max_health: 5, health: 5, erosion: 5 },
        ),
{
    let construct = Construct::new(ConstructType::Wall { blocks_friendly: true }, 5, 5, 5);
    Card {
        name: "Flimsy Wall".to_owned(),
        description: "A flimsy wall that should hold for a bit.".to_owned(),
        cost: 1,
        content: CardType::Construct(construct),
    }
}

pub fn ramp_wall() -> (r: Card)
    ensures
        r.cost == 1,
        r.name@ == "Ramp Wall"@,
        r.content == CardType::Construct(
            Construct { construct_type: ConstructType::Wall { blocks_friendly: false }, max_health: 5, health: 5, erosion: 5 },
        ),
{
    let construct = Construct::new(ConstructType::Wall { blocks_friendly: false }, 5, 5, 5);
    Card {
        name: "Ramp Wall".to_owned(),
        description: "A wall with a ramp on the friendly side to allow creatures to pass over".to_owned(),
        cost: 1,
        content: CardType::Construct(construct),
    }
}

pub fn spikes() -> (r: Card)
    ensures
        r.cost == 1,
        r.name@ == "Spikes"@,
        r.content == CardType::Construct(
            Construct { construct_type: ConstructType::Trap { damage: 3 }, max_health: 5, health: 5, erosion: 5 },
        ),
{
    let construct = Construct::new(ConstructType::Trap { damage: 3 }, 5, 5, 5);
    Card {
        name: "Spikes".to_owned(),
        description: "Small spikes that will damage some passing creatures.".to_owned(),
        cost: 1,
        content: CardType::Construct(construct),
    }
}

/// Lightning deals one damage to every creature it reaches.
pub fn lightning() -> (r: Card)
    ensures
        r.cost == 1,
        r.name@ == "Lightning"@,
        r.content == CardType::Evocation(Evocation { evocation_type: EvocationType::Damage { dmg: 1 } }),
{
    let evocation = Evocation::new(EvocationType::Damage { dmg: 1 });
    Card {
        name: "Lightning".to_owned(),
        description: "Evoke lightning amongst all!".to_owned(),
        cost: 1,
        content: CardType::Evocation(evocation),
    }
}

/// Thunder is printed as a second lightning card.
pub fn thunder() -> (r: Card)
    ensures
        r.cost == 1,
        r.name@ == "Lightning"@,
        r.content == CardType::Evocation(Evocation { evocation_type: EvocationType::Damage { dmg: 1 } }),
{
    let evocation = Evocation::new(EvocationType::Damage { dmg: 1 });
    Card {
        name: "Lightning".to_owned(),
        description: "Evoke lightning amongst all!".to_owned(),
        cost: 1,
        content: CardType::Evocation(evocation),
    }
}

} // verus!
