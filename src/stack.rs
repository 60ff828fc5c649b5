//! What waits to happen: the resolution stack, the attack staging slot and the attack chain.
use vstd::prelude::*;

verus! {

/// An action that passed its checks and was paid for, waiting to resolve.
#[derive(Clone, Copy, Debug, PartialEq, Eq, Structural)]
pub struct GameEvent {
    pub target: Option<u32>,
    pub card: u32,
    pub actor: u32,
    pub attack: bool,
}

/// Pending effects; the last one pushed resolves first.
pub struct Stack(pub Vec<GameEvent>);

impl View for Stack {
    type V = Seq<GameEvent>;

    open spec fn view(&self) -> Seq<GameEvent> {
        self.0@
    }
}

/// The stack after pushing `e` onto `s`.
pub open spec fn pushed(s: Seq<GameEvent>, e: GameEvent) -> Seq<GameEvent> {
    s.push(e)
}

/// What a pop of `s` returns, and the stack it leaves.
pub open spec fn popped(s: Seq<GameEvent>) -> (Option<GameEvent>, Seq<GameEvent>) {
    if s.len() == 0 {
        (None, s)
    } else {
        (Some(s.last()), s.drop_last())
    }
}

/// Pushing `a` and then `b` and popping twice yields `b`, then `a`, and leaves the stack as
/// it was.
pub proof fn lemma_stack_last_in_first_out(s: Seq<GameEvent>, a: GameEvent, b: GameEvent)
    ensures
        popped(pushed(pushed(s, a), b)).0 == Some(b),
        popped(popped(pushed(pushed(s, a), b)).1).0 == Some(a),
        popped(popped(pushed(pushed(s, a), b)).1).1 == s,
{
    assert(pushed(pushed(s, a), b).drop_last() =~= pushed(s, a));
    assert(pushed(s, a).drop_last() =~= s);
}

impl Stack {
    pub fn new() -> (r: Stack)
        ensures
            r@.len() == 0,
    {
        Stack(Vec::new())
    }

    pub fn push(&mut self, event: GameEvent)
        ensures
            final(self)@ == pushed(old(self)@, event),
    {
        self.0.push(event);
    }

    pub fn pop(&mut self) -> (r: Option<GameEvent>)
        ensures
            (r, final(self)@) == popped(old(self)@),
    {
        self.0.pop()
    }

    pub fn is_empty(&self) -> (r: bool)
        ensures
            r == (self@.len() == 0),
    {
        self.0.len() == 0
    }
}

/// At most one attack, waiting to enter the chain.
pub struct AttackLayer(pub Option<GameEvent>);

impl AttackLayer {
    /// Stores `event`, replacing whatever was staged.
    pub fn stage(&mut self, event: GameEvent)
        ensures
            final(self).0 == Some(event),
    {
        self.0 = Some(event);
    }

    /// Removes and returns the staged event.
    pub fn take(&mut self) -> (r: Option<GameEvent>)
        ensures
            r == old(self).0,
            final(self).0.is_none(),
    {
        self.0.take()
    }
}

/// One attack's record, from its entry into the chain to its close.
#[derive(Debug)]
pub struct ChainLink {
    pub target: u32,
    pub attacker: u32,
    pub attack: u32,
    pub blocks: Vec<u32>,
    pub attack_reactions: Vec<u32>,
    pub defense_reactions: Vec<u32>,
    pub hit: bool,
    pub closed: bool,
}

impl ChainLink {
    /// A fresh link: no blocks or reactions yet, not hit, not closed.
    pub fn attack(target: u32, attacker: u32, attack: u32) -> (r: ChainLink)
        ensures
            r.target == target,
            r.attacker == attacker,
            r.attack == attack,
            r.blocks@.len() == 0,
            r.attack_reactions@.len() == 0,
            r.defense_reactions@.len() == 0,
            !r.hit,
            !r.closed,
    {
        ChainLink {
            target,
            attacker,
            attack,
            blocks: Vec::new(),
            attack_reactions: Vec::new(),
            defense_reactions: Vec::new(),
            hit: false,
            closed: false,
        }
    }
}

/// The links of this turn's attacks, oldest first; `open` once any link was added.
pub struct Chain {
    pub links: Vec<ChainLink>,
    pub open: bool,
}

impl Chain {
    pub fn new() -> (r: Chain)
        ensures
            r.links@.len() == 0,
            !r.open,
    {
        Chain { links: Vec::new(), open: false }
    }

    pub fn add_chain_link(&mut self, chain_link: ChainLink)
        ensures
            final(self).links@ == old(self).links@.push(chain_link),
            final(self).open,
    {
        self.open = true;
        self.links.push(chain_link);
    }

    /// The most recent link.
    pub fn current(&self) -> (r: &ChainLink)
        requires
            self.links@.len() > 0,
        ensures
            *r == self.links@.last(),
    {
        &self.links[self.links.len() - 1]
    }

    /// Marks the most recent link closed.
    pub fn close_current(&mut self)
        requires
            old(self).links@.len() > 0,
        ensures
            final(self).links@ == old(self).links@.update(
                old(self).links@.len() - 1,
                ChainLink { closed: true, ..old(self).links@.last() },
            ),
            final(self).open == old(self).open,
    {
        let last = self.links.len() - 1;
        self.links[last].closed = true;
    }
}

} // verus!
