//! Each side's half of the field, and the moves of a turn on one's own half.
use crate::field::cards::{flies_spec, Card, CardType, CreatureView, Generator};
use crate::field::zones::{
    any_blocks, any_blocks_friendly, erosion_survivors, evocations_applied, lemma_split_views,
    lemma_views_append, split_by_flight, views, ConstructZone, CreatureZone, Deck, Discard, EvocationZone, GeneratorZone,
    Hand, MaterialPool, ResourcePool,
};
use vstd::prelude::*;

verus! {

pub struct Half {
    pub evocations: EvocationZone,
    pub constructs: ConstructZone,
    pub generators: GeneratorZone,
    pub creatures: CreatureZone,
    pub discard: Discard,
    pub hand: Hand,
    pub deck: Deck,
    pub materials: MaterialPool,
    pub resources: ResourcePool,
}

pub struct TheirHalf(pub Half);

pub struct MyHalf(pub Half);

pub struct Field {
    pub theirs: TheirHalf,
    pub mine: MyHalf,
}

impl MyHalf {
    /// The top card of the deck, if any, goes to the front of the hand.
    pub fn draw_card(&mut self)
        ensures
            old(self).0.deck.cards@.len() == 0 ==> final(self).0.deck.cards@ == old(self).0.deck.cards@
                && final(self).0.hand.cards@ == old(self).0.hand.cards@,
            old(self).0.deck.cards@.len() > 0 ==> final(self).0.deck.cards@ == old(self).0.deck.cards@.drop_first()
                && final(self).0.hand.cards@ == seq![old(self).0.deck.cards@[0]] + old(self).0.hand.cards@,
    {
        if let Some(card) = self.0.deck.draw() {
            self.0.hand.add(card);
        }
    }

    /// A card enters the zone of its kind.
    pub fn place_card(&mut self, card: Card)
        ensures
            final(self).0.hand.cards@ == old(self).0.hand.cards@,
            final(self).0.resources.0 == old(self).0.resources.0,
            match card.content {
                CardType::Generator(g) => final(self).0.generators.generators@
                    == old(self).0.generators.generators@.push(g),
                CardType::Construct(c) => final(self).0.constructs.constructs@
                    == old(self).0.constructs.constructs@.push(c),
                CardType::Evocation(e) => final(self).0.evocations.evocations@
                    == old(self).0.evocations.evocations@.push(e),
            },
    {
        match card.content {
            CardType::Generator(gen) => self.0.generators.add(gen),
            CardType::Construct(con) => self.0.constructs.add(con),
            CardType::Evocation(evo) => self.0.evocations.add(evo),
        }
    }

    /// Plays the card at `index` of the hand where it exists and its cost can be paid.
    pub fn play_card_from_hand(&mut self, index: usize)
        ensures
            ({
                let played = index < old(self).0.hand.cards@.len()
                    && old(self).0.hand.cards@[index as int].cost <= old(self).0.resources.0;
                if played {
                    &&& final(self).0.hand.cards@ == old(self).0.hand.cards@.remove(index as int)
                    &&& final(self).0.resources.0 == old(self).0.resources.0
                        - old(self).0.hand.cards@[index as int].cost
                } else {
                    &&& final(self).0.hand.cards@ == old(self).0.hand.cards@
                    &&& final(self).0.resources.0 == old(self).0.resources.0
                }
            }),
    {
        let cost = match self.0.hand.borrow(index) {
            Some(card_ref) => card_ref.cost,
            None => {
                return;
            },
        };
        if self.0.resources.pay_cost(cost) {
            let card = self.0.hand.take(index);
            self.place_card(card);
        }
    }

    /// Primes the generator at `index` where it exists, is not yet primed, and its cost can
    /// be paid.
    pub fn allocate_resources_to_generator(&mut self, index: usize)
        ensures
            ({
                let gens = old(self).0.generators.generators@;
                let primed = index < gens.len() && !gens[index as int].primed
                    && gens[index as int].gen_cost <= old(self).0.resources.0;
                if primed {
                    &&& final(self).0.generators.generators@ == gens.update(
                        index as int,
                        Generator { primed: true, ..gens[index as int] },
                    )
                    &&& final(self).0.resources.0 == old(self).0.resources.0 - gens[index as int].gen_cost
                } else {
                    &&& final(self).0.generators.generators@ == gens
                    &&& final(self).0.resources.0 == old(self).0.resources.0
                }
            }),
    {
        let (primed, cost) = match self.0.generators.borrow(index) {
            Some(gen_ref) => (gen_ref.is_primed(), gen_ref.gen_cost),
            None => {
                return;
            },
        };
        if !primed {
            if self.0.resources.pay_cost(cost) {
                self.0.generators.prime(index);
            }
        }
    }

    /// Creatures leave the creature zone; those that get past the walls join the evocation
    /// zone, the others stay.
    pub fn deploy_creatures(&mut self)
        ensures
            final(self).0.constructs.constructs@ == old(self).0.constructs.constructs@,
            final(self).0.constructs.scheduled@ == old(self).0.constructs.scheduled@,
            final(self).0.evocations.evocations@ == old(self).0.evocations.evocations@,
            final(self).0.generators.generators@ == old(self).0.generators.generators@,
            final(self).0.hand.cards@ == old(self).0.hand.cards@,
            final(self).0.deck.cards@ == old(self).0.deck.cards@,
            final(self).0.resources.0 == old(self).0.resources.0,
            ({
                let cs = old(self).0.creatures.creatures@;
                if any_blocks_friendly(old(self).0.constructs.constructs@) {
                    &&& final(self).0.creatures.creatures@ == split_by_flight(cs).1
                    &&& final(self).0.evocations.creatures@ == old(self).0.evocations.creatures@
                        + split_by_flight(cs).0
                } else {
                    &&& final(self).0.creatures.creatures@.len() == 0
                    &&& final(self).0.evocations.creatures@ == old(self).0.evocations.creatures@ + cs
                }
            }),
    {
        let creatures = self.0.creatures.drain();
        let (advanced, blocked) = self.0.constructs.deploy_creatures(creatures);
        self.0.creatures.load(blocked);
        self.0.evocations.load_creatures(advanced);
    }

    /// Creatures leave the evocation zone; those that get past the walls return to the
    /// creature zone, the others stay.
    pub fn retreat_creatures(&mut self)
        ensures
            final(self).0.constructs.constructs@ == old(self).0.constructs.constructs@,
            final(self).0.constructs.scheduled@ == old(self).0.constructs.scheduled@,
            final(self).0.evocations.evocations@ == old(self).0.evocations.evocations@,
            final(self).0.generators.generators@ == old(self).0.generators.generators@,
            final(self).0.hand.cards@ == old(self).0.hand.cards@,
            final(self).0.deck.cards@ == old(self).0.deck.cards@,
            final(self).0.resources.0 == old(self).0.resources.0,
            ({
                let cs = old(self).0.evocations.creatures@;
                if any_blocks(old(self).0.constructs.constructs@) {
                    &&& final(self).0.creatures.creatures@ == old(self).0.creatures.creatures@
                        + split_by_flight(cs).0
                    &&& final(self).0.evocations.creatures@ == split_by_flight(cs).1
                } else {
                    &&& final(self).0.creatures.creatures@ == old(self).0.creatures.creatures@ + cs
                    &&& final(self).0.evocations.creatures@.len() == 0
                }
            }),
    {
        let creatures = self.0.evocations.drain_creatures();
        let (retreated, blocked) = self.0.constructs.retreat_creatures(creatures);
        self.0.creatures.load(retreated);
        self.0.evocations.load_creatures(blocked);
    }

    /// One round on this half: scheduled constructs enter play, creatures advance, the
    /// evocations act, the generators run, creatures come back, and the constructs erode.
    pub fn run(&mut self)
        ensures
            final(self).0.constructs.constructs@ == erosion_survivors(
                old(self).0.constructs.constructs@ + old(self).0.constructs.scheduled@,
            ),
            final(self).0.constructs.scheduled@.len() == 0,
            final(self).0.evocations.evocations@.len() == 0,
            final(self).0.generators.generators@ == old(self).0.generators.generators@,
            final(self).0.hand.cards@ == old(self).0.hand.cards@,
            final(self).0.deck.cards@ == old(self).0.deck.cards@,
            final(self).0.resources.0 == old(self).0.resources.0,
            ({
                let cons = old(self).0.constructs.constructs@ + old(self).0.constructs.scheduled@;
                let cs = old(self).0.creatures.creatures@;
                let advanced = if any_blocks_friendly(cons) {
                    split_by_flight(cs).0
                } else {
                    cs
                };
                let held = if any_blocks_friendly(cons) {
                    split_by_flight(cs).1
                } else {
                    Seq::empty()
                };
                let fought = evocations_applied(
                    old(self).0.evocations.evocations@,
                    views(old(self).0.evocations.creatures@ + advanced),
                );
                if any_blocks(cons) {
                    &&& views(final(self).0.creatures.creatures@) == views(held) + fought.filter(
                        |v: CreatureView| flies_spec(v),
                    )
                    &&& views(final(self).0.evocations.creatures@) == fought.filter(
                        |v: CreatureView| !flies_spec(v),
                    )
                } else {
                    &&& views(final(self).0.creatures.creatures@) == views(held) + fought
                    &&& final(self).0.evocations.creatures@.len() == 0
                }
            }),
    {
        self.0.constructs.run();
        self.deploy_creatures();
        self.0.evocations.run();
        self.0.generators.run();
        let ghost fought = self.0.evocations.creatures@;
        let ghost held = self.0.creatures.creatures@;
        self.retreat_creatures();
        proof {
            lemma_split_views(fought);
            lemma_views_append(held, fought);
            lemma_views_append(held, split_by_flight(fought).0);
        }
        self.0.constructs.apply_erosion();
    }
}

} // verus!
