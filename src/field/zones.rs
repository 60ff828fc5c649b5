//! The zones of one half of the field.
use crate::field::cards::{
    alive_spec, blocks_friendly_spec, blocks_spec, broken_spec, eroded, flies_spec, Card, Construct,
    Creature, CreatureGen, CreatureView, Evocation, Evokable, Generator,
};
use std::collections::VecDeque;
use vstd::prelude::*;

verus! {

pub struct ResourcePool(pub u32);

pub struct MaterialPool(pub u32);

pub struct Hand {
    pub cards: VecDeque<Card>,
}

pub struct Discard {
    pub cards: Vec<Card>,
}

pub struct GeneratorZone {
    pub generators: Vec<Generator>,
}

/// Constructs in play, and those that enter play when the zone next runs.
pub struct ConstructZone {
    pub constructs: VecDeque<Construct>,
    pub scheduled: Vec<Construct>,
}

/// Evocations waiting to act, and the creatures they act on.
pub struct EvocationZone {
    pub evocations: VecDeque<Evocation>,
    pub creatures: VecDeque<Creature>,
}

pub struct CreatureZone {
    pub creatures: Vec<Creature>,
}

pub struct Deck {
    pub cards: VecDeque<Card>,
}

pub open spec fn views(s: Seq<Creature>) -> Seq<CreatureView> {
    s.map_values(|c: Creature| c@)
}

proof fn lemma_views_push(s: Seq<Creature>, c: Creature)
    ensures
        views(s.push(c)) == views(s).push(c@),
{
    assert(views(s.push(c)) =~= views(s).push(c@));
}

pub proof fn lemma_views_append(s: Seq<Creature>, t: Seq<Creature>)
    ensures
        views(s + t) == views(s) + views(t),
{
    assert(views(s + t) =~= views(s) + views(t));
}

/// The creatures that the primed generators of `gens` make, in order.
pub open spec fn generated(gens: Seq<Generator>) -> Seq<CreatureView>
    decreases gens.len(),
{
    if gens.len() == 0 {
        Seq::empty()
    } else if gens.last().primed {
        generated(gens.drop_last()).push(gens.last().creature_gen.made())
    } else {
        generated(gens.drop_last())
    }
}

/// The constructs of `cs` after erosion, without those it broke.
pub open spec fn erosion_survivors(cs: Seq<Construct>) -> Seq<Construct>
    decreases cs.len(),
{
    if cs.len() == 0 {
        Seq::empty()
    } else if !broken_spec(eroded(cs.last())) {
        erosion_survivors(cs.drop_last()).push(eroded(cs.last()))
    } else {
        erosion_survivors(cs.drop_last())
    }
}

/// The creatures of `cs` once `evo` acted on each, of which only those without health are
/// kept.
pub open spec fn evocation_fallen(evo: Evocation, cs: Seq<CreatureView>) -> Seq<CreatureView>
    decreases cs.len(),
{
    if cs.len() == 0 {
        Seq::empty()
    } else if !alive_spec(evo.evoked(cs.last())) {
        evocation_fallen(evo, cs.drop_last()).push(evo.evoked(cs.last()))
    } else {
        evocation_fallen(evo, cs.drop_last())
    }
}

/// `evos` act in turn on `cs`, each on what the one before left.
pub open spec fn evocations_applied(evos: Seq<Evocation>, cs: Seq<CreatureView>) -> Seq<CreatureView>
    decreases evos.len(),
{
    if evos.len() == 0 {
        cs
    } else {
        evocations_applied(evos.drop_first(), evocation_fallen(evos[0], cs))
    }
}

pub open spec fn any_blocks_friendly(cs: Seq<Construct>) -> bool {
    exists|i: int| 0 <= i < cs.len() && blocks_friendly_spec(#[trigger] cs[i])
}

pub open spec fn any_blocks(cs: Seq<Construct>) -> bool {
    exists|i: int| 0 <= i < cs.len() && blocks_spec(#[trigger] cs[i])
}

/// Creatures split by whether they fly, each part in the order given.
pub open spec fn split_by_flight(cs: Seq<Creature>) -> (Seq<Creature>, Seq<Creature>) {
    (cs.filter(|c: Creature| flies_spec(c@)), cs.filter(|c: Creature| !flies_spec(c@)))
}

/// Splitting creatures by flight and then viewing them is viewing them and then splitting.
pub proof fn lemma_split_views(cs: Seq<Creature>)
    ensures
        views(split_by_flight(cs).0) == views(cs).filter(|v: CreatureView| flies_spec(v)),
        views(split_by_flight(cs).1) == views(cs).filter(|v: CreatureView| !flies_spec(v)),
    decreases cs.len(),
{
    let f = |c: Creature| flies_spec(c@);
    let g = |c: Creature| !flies_spec(c@);
    let fv = |v: CreatureView| flies_spec(v);
    let gv = |v: CreatureView| !flies_spec(v);
    if cs.len() == 0 {
        assert(cs.filter(f) =~= Seq::<Creature>::empty());
        assert(cs.filter(g) =~= Seq::<Creature>::empty());
        assert(views(cs).filter(fv) =~= Seq::<CreatureView>::empty());
        assert(views(cs).filter(gv) =~= Seq::<CreatureView>::empty());
        assert(views(Seq::<Creature>::empty()) =~= Seq::<CreatureView>::empty());
    } else {
        let pre = cs.drop_last();
        let c = cs.last();
        lemma_split_views(pre);
        assert(pre.push(c) =~= cs);
        pre.lemma_filter_push(c, f);
        pre.lemma_filter_push(c, g);
        lemma_views_push(pre, c);
        views(pre).lemma_filter_push(c@, fv);
        views(pre).lemma_filter_push(c@, gv);
        lemma_views_push(pre.filter(f), c);
        lemma_views_push(pre.filter(g), c);
    }
}

fn partition_flyers(creatures: Vec<Creature>) -> (r: (Vec<Creature>, Vec<Creature>))
    ensures
        (r.0@, r.1@) == split_by_flight(creatures@),
{
    let ghost orig = creatures@;
    let mut rest = creatures;
    let mut flyers: Vec<Creature> = Vec::new();
    let mut walkers: Vec<Creature> = Vec::new();
    while rest.len() > 0
        invariant
            rest@.len() <= orig.len(),
            rest@ == orig.subrange(orig.len() - rest@.len(), orig.len() as int),
            flyers@ == orig.subrange(0, orig.len() - rest@.len()).filter(|c: Creature| flies_spec(c@)),
            walkers@ == orig.subrange(0, orig.len() - rest@.len()).filter(|c: Creature| !flies_spec(c@)),
        decreases rest@.len(),
    {
        let ghost k = orig.len() - rest@.len();
        let c = rest.remove(0);
        proof {
            let pre = orig.subrange(0, k);
            assert(orig.subrange(0, k + 1) =~= pre.push(c));
            assert(rest@ =~= orig.subrange(k + 1, orig.len() as int));
            pre.lemma_filter_push(c, |c: Creature| flies_spec(c@));
            pre.lemma_filter_push(c, |c: Creature| !flies_spec(c@));
        }
        if c.flies() {
            flyers.push(c);
        } else {
            walkers.push(c);
        }
    }
    assert(orig.subrange(0, orig.len() as int) =~= orig);
    (flyers, walkers)
}

impl Hand {
    pub fn new() -> (r: Hand)
        ensures
            r.cards@.len() == 0,
    {
        Hand { cards: VecDeque::new() }
    }

    pub fn take(&mut self, index: usize) -> (r: Card)
        requires
            index < old(self).cards@.len(),
        ensures
            r == old(self).cards@[index as int],
            final(self).cards@ == old(self).cards@.remove(index as int),
    {
        self.cards.remove(index).unwrap()
    }

    pub fn borrow(&self, index: usize) -> (r: Option<&Card>)
        ensures
            match r {
                Some(c) => index < self.cards@.len() && *c == self.cards@[index as int],
                None => index >= self.cards@.len(),
            },
    {
        if index < self.cards.len() {
            Some(&self.cards[index])
        } else {
            None
        }
    }

    pub fn add(&mut self, card: Card)
        ensures
            final(self).cards@ == seq![card] + old(self).cards@,
    {
        self.cards.push_front(card);
    }
}

impl Deck {
    pub fn new() -> (r: Deck)
        ensures
            r.cards@.len() == 0,
    {
        Deck { cards: VecDeque::new() }
    }

    pub fn draw(&mut self) -> (r: Option<Card>)
        ensures
            old(self).cards@.len() == 0 ==> r is None && final(self).cards@ == old(self).cards@,
            old(self).cards@.len() > 0 ==> r == Some(old(self).cards@[0])
                && final(self).cards@ == old(self).cards@.drop_first(),
    {
        self.cards.pop_front()
    }

    /// Leaves the deck in its order.
    pub fn shuffle(&mut self)
        ensures
            final(self).cards@ == old(self).cards@,
    {
    }
}

impl GeneratorZone {
    pub fn new() -> (r: GeneratorZone)
        ensures
            r.generators@.len() == 0,
    {
        GeneratorZone { generators: Vec::new() }
    }

    pub fn add(&mut self, gen: Generator)
        ensures
            final(self).generators@ == old(self).generators@.push(gen),
    {
        self.generators.push(gen);
    }

    pub fn borrow(&self, index: usize) -> (r: Option<&Generator>)
        ensures
            match r {
                Some(g) => index < self.generators@.len() && *g == self.generators@[index as int],
                None => index >= self.generators@.len(),
            },
    {
        if index < self.generators.len() {
            Some(&self.generators[index])
        } else {
            None
        }
    }

    /// Primes the generator at `index`, where there is one.
    pub fn prime(&mut self, index: usize)
        ensures
            index < old(self).generators@.len() ==> final(self).generators@
                == old(self).generators@.update(
                index as int,
                Generator { primed: true, ..old(self).generators@[index as int] },
            ),
            index >= old(self).generators@.len() ==> final(self).generators@
                == old(self).generators@,
    {
        if index < self.generators.len() {
            self.generators[index].prime();
            assert(self.generators@ =~= old(self).generators@.update(
                index as int,
                Generator { primed: true, ..old(self).generators@[index as int] },
            ));
        }
    }

    /// Each primed generator makes its creature.
    pub fn run(&self) -> (r: Vec<Creature>)
        ensures
            views(r@) == generated(self.generators@),
    {
        let mut r: Vec<Creature> = Vec::new();
        let mut i: usize = 0;
        while i < self.generators.len()
            invariant
                0 <= i <= self.generators@.len(),
                views(r@) == generated(self.generators@.subrange(0, i as int)),
            decreases self.generators@.len() - i,
        {
            assert(self.generators@.subrange(0, i as int + 1).drop_last() =~= self.generators@.subrange(0, i as int));
            if self.generators[i].is_primed() {
                let c = self.generators[i].gen();
                proof {
                    lemma_views_push(r@, c);
                }
                r.push(c);
            }
            i = i + 1;
        }
        assert(self.generators@.subrange(0, self.generators@.len() as int) =~= self.generators@);
        r
    }
}

impl CreatureZone {
    pub fn new() -> (r: CreatureZone)
        ensures
            r.creatures@.len() == 0,
    {
        CreatureZone { creatures: Vec::new() }
    }

    /// Takes every creature out of the zone.
    pub fn drain(&mut self) -> (r: Vec<Creature>)
        ensures
            r@ == old(self).creatures@,
            final(self).creatures@.len() == 0,
    {
        let mut out: Vec<Creature> = Vec::new();
        std::mem::swap(&mut out, &mut self.creatures);
        out
    }

    pub fn load(&mut self, creatures: Vec<Creature>)
        ensures
            final(self).creatures@ == old(self).creatures@ + creatures@,
    {
        let mut creatures = creatures;
        self.creatures.append(&mut creatures);
    }

    pub fn add(&mut self, creature: Creature)
        ensures
            final(self).creatures@ == old(self).creatures@.push(creature),
    {
        self.creatures.push(creature);
    }
}

impl ConstructZone {
    pub fn new() -> (r: ConstructZone)
        ensures
            r.constructs@.len() == 0,
            r.scheduled@.len() == 0,
    {
        ConstructZone { constructs: VecDeque::new(), scheduled: Vec::new() }
    }

    pub fn add(&mut self, con: Construct)
        ensures
            final(self).constructs@ == old(self).constructs@.push(con),
            final(self).scheduled@ == old(self).scheduled@,
    {
        self.constructs.push_back(con);
    }

    /// The scheduled constructs enter play, in order.
    pub fn run(&mut self)
        ensures
            final(self).constructs@ == old(self).constructs@ + old(self).scheduled@,
            final(self).scheduled@.len() == 0,
    {
        let mut rest: Vec<Construct> = Vec::new();
        std::mem::swap(&mut rest, &mut self.scheduled);
        let ghost orig = rest@;
        while rest.len() > 0
            invariant
                rest@.len() <= orig.len(),
                rest@ == orig.subrange(orig.len() - rest@.len(), orig.len() as int),
                self.constructs@ == old(self).constructs@ + orig.subrange(0, orig.len() - rest@.len()),
                self.scheduled@.len() == 0,
            decreases rest@.len(),
        {
            let ghost k = orig.len() - rest@.len();
            let c = rest.remove(0);
            self.constructs.push_back(c);
            assert(rest@ =~= orig.subrange(k + 1, orig.len() as int));
            assert(self.constructs@ =~= old(self).constructs@ + orig.subrange(0, k + 1));
        }
        assert(orig.subrange(0, orig.len() as int) =~= orig);
    }

    /// Every construct erodes; the broken ones leave play.
    pub fn apply_erosion(&mut self)
        ensures
            final(self).constructs@ == erosion_survivors(old(self).constructs@),
            final(self).scheduled@ == old(self).scheduled@,
    {
        let mut rest: VecDeque<Construct> = VecDeque::new();
        std::mem::swap(&mut rest, &mut self.constructs);
        let ghost orig = rest@;
        while rest.len() > 0
            invariant
                rest@.len() <= orig.len(),
                rest@ == orig.subrange(orig.len() - rest@.len(), orig.len() as int),
                self.constructs@ == erosion_survivors(orig.subrange(0, orig.len() - rest@.len())),
                self.scheduled@ == old(self).scheduled@,
            decreases rest@.len(),
        {
            let ghost k = orig.len() - rest@.len();
            let c = rest.pop_front().unwrap();
            assert(orig.subrange(0, k + 1).drop_last() =~= orig.subrange(0, k));
            assert(rest@ =~= orig.subrange(k + 1, orig.len() as int));
            let c = c.erode();
            if !c.broken() {
                self.constructs.push_back(c);
            }
        }
        assert(orig.subrange(0, orig.len() as int) =~= orig);
    }

    fn any_friendly_blocker(&self) -> (r: bool)
        ensures
            r == any_blocks_friendly(self.constructs@),
    {
        let mut i: usize = 0;
        while i < self.constructs.len()
            invariant
                0 <= i <= self.constructs@.len(),
                forall|j: int| 0 <= j < i ==> !blocks_friendly_spec(#[trigger] self.constructs@[j]),
            decreases self.constructs@.len() - i,
        {
            if self.constructs[i].blocks_friendly() {
                return true;
            }
            i = i + 1;
        }
        false
    }

    fn any_blocker(&self) -> (r: bool)
        ensures
            r == any_blocks(self.constructs@),
    {
        let mut i: usize = 0;
        while i < self.constructs.len()
            invariant
                0 <= i <= self.constructs@.len(),
                forall|j: int| 0 <= j < i ==> !blocks_spec(#[trigger] self.constructs@[j]),
            decreases self.constructs@.len() - i,
        {
            if self.constructs[i].blocks() {
                return true;
            }
            i = i + 1;
        }
        false
    }

    /// Creatures set out: with no wall that blocks friendly creatures all advance; otherwise
    /// only the flyers do, and the rest are held back.
    pub fn deploy_creatures(&self, creatures: Vec<Creature>) -> (r: (Vec<Creature>, Vec<Creature>))
        ensures
            !any_blocks_friendly(self.constructs@) ==> r.0@ == creatures@ && r.1@.len() == 0,
            any_blocks_friendly(self.constructs@) ==> (r.0@, r.1@) == split_by_flight(creatures@),
    {
        if !self.any_friendly_blocker() {
            (creatures, Vec::new())
        } else {
            partition_flyers(creatures)
        }
    }

    /// Creatures come back: with no wall at all all return; otherwise only the flyers do.
    pub fn retreat_creatures(&self, creatures: Vec<Creature>) -> (r: (Vec<Creature>, Vec<Creature>))
        ensures
            !any_blocks(self.constructs@) ==> r.0@ == creatures@ && r.1@.len() == 0,
            any_blocks(self.constructs@) ==> (r.0@, r.1@) == split_by_flight(creatures@),
    {
        if !self.any_blocker() {
            (creatures, Vec::new())
        } else {
            partition_flyers(creatures)
        }
    }

    /// Creatures invade: as when deploying, a wall that blocks friendly creatures stops all
    /// but the flyers.
    pub fn invade_creatures(&self, creatures: Vec<Creature>) -> (r: (Vec<Creature>, Vec<Creature>))
        ensures
            !any_blocks_friendly(self.constructs@) ==> r.0@ == creatures@ && r.1@.len() == 0,
            any_blocks_friendly(self.constructs@) ==> (r.0@, r.1@) == split_by_flight(creatures@),
    {
        if !self.any_friendly_blocker() {
            (creatures, Vec::new())
        } else {
            partition_flyers(creatures)
        }
    }
}

impl EvocationZone {
    pub fn new() -> (r: EvocationZone)
        ensures
            r.evocations@.len() == 0,
            r.creatures@.len() == 0,
    {
        EvocationZone { evocations: VecDeque::new(), creatures: VecDeque::new() }
    }

    pub fn add(&mut self, evo: Evocation)
        ensures
            final(self).evocations@ == old(self).evocations@.push(evo),
            final(self).creatures@ == old(self).creatures@,
    {
        self.evocations.push_back(evo);
    }

    pub fn load_creatures(&mut self, creatures: Vec<Creature>)
        ensures
            final(self).creatures@ == old(self).creatures@ + creatures@,
            final(self).evocations@ == old(self).evocations@,
    {
        let ghost orig = creatures@;
        let mut rest = creatures;
        while rest.len() > 0
            invariant
                rest@.len() <= orig.len(),
                rest@ == orig.subrange(orig.len() - rest@.len(), orig.len() as int),
                self.creatures@ == old(self).creatures@ + orig.subrange(0, orig.len() - rest@.len()),
                self.evocations@ == old(self).evocations@,
            decreases rest@.len(),
        {
            let ghost k = orig.len() - rest@.len();
            let c = rest.remove(0);
            self.creatures.push_back(c);
            assert(rest@ =~= orig.subrange(k + 1, orig.len() as int));
            assert(self.creatures@ =~= old(self).creatures@ + orig.subrange(0, k + 1));
        }
        assert(orig.subrange(0, orig.len() as int) =~= orig);
    }

    pub fn drain_creatures(&mut self) -> (r: Vec<Creature>)
        ensures
            r@ == old(self).creatures@,
            final(self).creatures@.len() == 0,
            final(self).evocations@ == old(self).evocations@,
    {
        let mut out: Vec<Creature> = Vec::new();
        while self.creatures.len() > 0
            invariant
                out@ + self.creatures@ == old(self).creatures@,
                self.evocations@ == old(self).evocations@,
            decreases self.creatures@.len(),
        {
            let ghost before = self.creatures@;
            let c = self.creatures.pop_front().unwrap();
            out.push(c);
            assert(before =~= seq![c] + self.creatures@);
            assert(out@ + self.creatures@ =~= old(self).creatures@);
        }
        assert(out@ + self.creatures@ =~= out@);
        out
    }

    /// `evo` acts on every creature; only those left without health are kept.
    fn apply_evocation(evo: &Evocation, creatures: VecDeque<Creature>) -> (r: VecDeque<Creature>)
        ensures
            views(r@) == evocation_fallen(*evo, views(creatures@)),
    {
        let ghost orig = creatures@;
        let mut rest = creatures;
        let mut kept: VecDeque<Creature> = VecDeque::new();
        while rest.len() > 0
            invariant
                rest@.len() <= orig.len(),
                rest@ == orig.subrange(orig.len() - rest@.len(), orig.len() as int),
                views(kept@) == evocation_fallen(*evo, views(orig.subrange(0, orig.len() - rest@.len()))),
            decreases rest@.len(),
        {
            let ghost k = orig.len() - rest@.len();
            let c = rest.pop_front().unwrap();
            proof {
                assert(rest@ =~= orig.subrange(k + 1, orig.len() as int));
                assert(orig.subrange(0, k + 1) =~= orig.subrange(0, k).push(c));
                lemma_views_push(orig.subrange(0, k), c);
                assert(views(orig.subrange(0, k + 1)).drop_last() =~= views(orig.subrange(0, k)));
            }
            let c = evo.evoke(c);
            if !c.alive() {
                let ghost before = kept@;
                kept.push_back(c);
                proof {
                    assert(kept@ =~= before.push(c));
                    lemma_views_push(before, c);
                }
            }
        }
        assert(orig.subrange(0, orig.len() as int) =~= orig);
        kept
    }

    /// The evocations act in turn on the creatures, and are used up.
    pub fn run(&mut self)
        ensures
            views(final(self).creatures@) == evocations_applied(old(self).evocations@, views(old(self).creatures@)),
            final(self).evocations@.len() == 0,
    {
        let mut creatures: VecDeque<Creature> = VecDeque::new();
        std::mem::swap(&mut creatures, &mut self.creatures);
        while self.evocations.len() > 0
            invariant
                evocations_applied(self.evocations@, views(creatures@)) == evocations_applied(
                    old(self).evocations@,
                    views(old(self).creatures@),
                ),
            decreases self.evocations@.len(),
        {
            let ghost before = self.evocations@;
            let evo = self.evocations.pop_front().unwrap();
            assert(before.drop_first() =~= self.evocations@);
            creatures = Self::apply_evocation(&evo, creatures);
        }
        self.creatures = creatures;
    }
}

impl ResourcePool {
    /// Pays `cost` where the pool holds enough, and says whether it did.
    pub fn pay_cost(&mut self, cost: u32) -> (r: bool)
        ensures
            r == (cost <= old(self).0),
            final(self).0 == if r {
                (old(self).0 - cost) as u32
            } else {
                old(self).0
            },
    {
        if cost <= self.0 {
            self.0 = self.0 - cost;
            true
        } else {
            false
        }
    }
}

} // verus!
