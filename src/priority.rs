//! Who may act next: a zipper over the participants of the current decision point.
use std::collections::VecDeque;
use vstd::multiset::Multiset;
use vstd::prelude::*;

verus! {

/// Mathematical model of a [`Priority`] tracker.
pub struct PriorityView {
    pub holding: Seq<u32>,
    pub passed: Seq<u32>,
    pub hold: bool,
    pub blocks: bool,
    pub card_played: bool,
}

impl PriorityView {
    /// Everyone tracked at this decision point, counted with multiplicity.
    pub open spec fn participants(self) -> Multiset<u32> {
        (self.holding + self.passed).to_multiset()
    }

    /// No participant is tracked twice.
    pub open spec fn unique(self) -> bool {
        (self.holding + self.passed).no_duplicates()
    }

    pub open spec fn front_is(self, p: u32) -> bool {
        self.holding.len() > 0 && self.holding[0] == p
    }

    pub open spec fn all_passed(self) -> bool {
        self.holding.len() == 0 && !self.hold
    }

    /// Those who passed go back in front, in the order they passed.
    pub open spec fn after_reset(self) -> PriorityView {
        PriorityView { holding: self.passed + self.holding, passed: Seq::empty(), ..self }
    }

    /// The head of `holding` moves to the back of `passed`; then the tracker is reset when
    /// nobody has passed although a card was played.
    pub open spec fn after_pass(self) -> PriorityView {
        let moved = if self.holding.len() > 0 {
            PriorityView {
                holding: self.holding.drop_first(),
                passed: self.passed.push(self.holding[0]),
                ..self
            }
        } else {
            self
        };
        if moved.passed.len() == 0 && moved.card_played {
            moved.after_reset()
        } else {
            moved
        }
    }

    /// A reset, then the first of `holding` goes to its back.
    pub open spec fn after_cycle(self) -> PriorityView {
        let r = self.after_reset();
        if r.holding.len() > 0 {
            PriorityView { holding: r.holding.drop_first().push(r.holding[0]), ..r }
        } else {
            r
        }
    }

    /// The state after `n` passes in a row.
    pub open spec fn after_passes(self, n: nat) -> PriorityView
        decreases n,
    {
        if n == 0 {
            self
        } else {
            self.after_passes((n - 1) as nat).after_pass()
        }
    }
}

proof fn lemma_permutation_keeps_unique(a: Seq<u32>, b: Seq<u32>)
    requires
        a.to_multiset() == b.to_multiset(),
        a.no_duplicates(),
    ensures
        b.no_duplicates(),
{
    a.lemma_multiset_has_no_duplicates();
    b.lemma_multiset_has_no_duplicates_conv();
}

/// A reset keeps everyone who was tracked, and nobody else.
pub broadcast proof fn lemma_reset_keeps_participants(v: PriorityView)
    ensures
        (#[trigger] v.after_reset()).participants() == v.participants(),
        v.unique() ==> v.after_reset().unique(),
{
    vstd::seq_lib::lemma_seq_union_to_multiset_commutative(v.passed, v.holding);
    assert(v.after_reset().holding + v.after_reset().passed =~= v.passed + v.holding);
    if v.unique() {
        lemma_permutation_keeps_unique(v.holding + v.passed, v.passed + v.holding);
    }
}

/// Passing priority neither adds nor loses a participant, and keeps them distinct.
pub broadcast proof fn lemma_pass_keeps_participants(v: PriorityView)
    ensures
        (#[trigger] v.after_pass()).participants() == v.participants(),
        v.unique() ==> v.after_pass().unique(),
{
    broadcast use vstd::multiset::group_multiset_axioms;

    let moved = if v.holding.len() > 0 {
        PriorityView {
            holding: v.holding.drop_first(),
            passed: v.passed.push(v.holding[0]),
            ..v
        }
    } else {
        v
    };
    if v.holding.len() > 0 {
        let h = v.holding[0];
        let rest = v.holding.drop_first();
        assert(v.holding =~= seq![h] + rest);
        assert(v.holding + v.passed =~= seq![h] + (rest + v.passed));
        assert(moved.holding + moved.passed =~= (rest + v.passed).push(h));
        vstd::seq_lib::lemma_seq_union_to_multiset_commutative(seq![h], rest + v.passed);
        assert((rest + v.passed).push(h) =~= (rest + v.passed) + seq![h]);
        if v.unique() {
            lemma_permutation_keeps_unique(v.holding + v.passed, moved.holding + moved.passed);
        }
    }
    lemma_reset_keeps_participants(moved);
}

/// However many times priority is passed, the tracked participants stay the same, and stay
/// distinct.
pub proof fn lemma_passes_keep_participants(v: PriorityView, n: nat)
    ensures
        v.after_passes(n).participants() == v.participants(),
        v.unique() ==> v.after_passes(n).unique(),
    decreases n,
{
    if n > 0 {
        lemma_passes_keep_participants(v, (n - 1) as nat);
        lemma_pass_keeps_participants(v.after_passes((n - 1) as nat));
    }
}

/// The tracker operations keep who is tracked.
pub broadcast group group_participants {
    lemma_reset_keeps_participants,
    lemma_pass_keeps_participants,
    lemma_cycle_keeps_participants,
}

/// A second reset right after a first changes nothing.
pub proof fn lemma_reset_twice(v: PriorityView)
    ensures
        v.after_reset().after_reset() == v.after_reset(),
{
    assert(Seq::<u32>::empty() + v.after_reset().holding =~= v.after_reset().holding);
}

/// A cycle keeps everyone who was tracked, and nobody else.
pub broadcast proof fn lemma_cycle_keeps_participants(v: PriorityView)
    ensures
        (#[trigger] v.after_cycle()).participants() == v.participants(),
        v.unique() ==> v.after_cycle().unique(),
{
    lemma_reset_keeps_participants(v);
    let r = v.after_reset();
    if r.holding.len() > 0 {
        let h = r.holding[0];
        let rest = r.holding.drop_first();
        assert(r.holding + r.passed =~= seq![h] + rest);
        vstd::seq_lib::lemma_seq_union_to_multiset_commutative(seq![h], rest);
        assert(v.after_cycle().holding + v.after_cycle().passed =~= rest + seq![h]);
        if v.unique() {
            lemma_permutation_keeps_unique(r.holding + r.passed, rest + seq![h]);
        }
    }
}

/// The priority tracker: `holding` may still act this cycle (its head acts now), `passed`
/// has passed, in the order of passing.
pub struct Priority {
    pub holding: VecDeque<u32>,
    pub passed: VecDeque<u32>,
    /// The game itself holds priority: no participant may act.
    pub hold: bool,
    /// Only the head of `holding` may act, and only to declare blocks.
    pub blocks: bool,
    /// A card was paid for during this cycle.
    pub card_played: bool,
}

impl View for Priority {
    type V = PriorityView;

    open spec fn view(&self) -> PriorityView {
        PriorityView {
            holding: self.holding@,
            passed: self.passed@,
            hold: self.hold,
            blocks: self.blocks,
            card_played: self.card_played,
        }
    }
}

impl Priority {
    /// A tracker whose participants hold priority in the given turn order.
    pub fn new(order: Vec<u32>) -> (r: Priority)
        ensures
            r@.holding == order@,
            r@.passed.len() == 0,
            !r.hold,
            !r.blocks,
            !r.card_played,
    {
        let mut holding: VecDeque<u32> = VecDeque::new();
        let mut i: usize = 0;
        while i < order.len()
            invariant
                0 <= i <= order@.len(),
                holding@ == order@.subrange(0, i as int),
            decreases order@.len() - i,
        {
            holding.push_back(order[i]);
            i = i + 1;
            assert(holding@ =~= order@.subrange(0, i as int));
        }
        assert(holding@ =~= order@);
        Priority { holding, passed: VecDeque::new(), hold: false, blocks: false, card_played: false }
    }

    pub fn hold_priority(&mut self)
        ensures
            final(self)@ == (PriorityView { hold: true, ..old(self)@ }),
    {
        self.hold = true;
    }

    pub fn release_priority(&mut self)
        ensures
            final(self)@ == (PriorityView { hold: false, ..old(self)@ }),
    {
        self.hold = false;
    }

    /// `p` is at the head of `holding` and may take a general action.
    pub fn has_priority(&self, p: u32) -> (r: bool)
        ensures
            r == (self@.front_is(p) && !self.blocks),
    {
        self.holding.len() > 0 && self.holding[0] == p && !self.blocks
    }

    /// `p` is at the head of `holding` and may declare blocks.
    pub fn is_blocking(&self, p: u32) -> (r: bool)
        ensures
            r == (self@.front_is(p) && self.blocks),
    {
        self.holding.len() > 0 && self.holding[0] == p && self.blocks
    }

    pub fn priority_hero(&self) -> (r: Option<u32>)
        ensures
            r == (if self@.holding.len() > 0 {
                Some(self@.holding[0])
            } else {
                None::<u32>
            }),
    {
        if self.holding.len() > 0 {
            Some(self.holding[0])
        } else {
            None
        }
    }

    /// The head of `holding`, or else the head of `passed`.
    pub fn turn_player(&self) -> (r: u32)
        requires
            self@.holding.len() > 0 || self@.passed.len() > 0,
        ensures
            r == (if self@.holding.len() > 0 {
                self@.holding[0]
            } else {
                self@.passed[0]
            }),
    {
        if self.holding.len() > 0 {
            self.holding[0]
        } else {
            self.passed[0]
        }
    }

    pub fn pass_priority(&mut self)
        ensures
            final(self)@ == old(self)@.after_pass(),
    {
        match self.holding.pop_front() {
            Some(hero) => self.passed.push_back(hero),
            None => {},
        }
        if self.passed.len() == 0 && self.card_played {
            self.reset();
        }
    }

    pub fn all_passed(&self) -> (r: bool)
        ensures
            r == self@.all_passed(),
    {
        self.holding.len() == 0 && !self.hold
    }

    pub fn cycle_priority(&mut self)
        ensures
            final(self)@ == old(self)@.after_cycle(),
    {
        self.reset();
        match self.holding.pop_front() {
            Some(first) => {
                self.holding.push_back(first);
            },
            None => {},
        }
    }

    pub fn reset(&mut self)
        ensures
            final(self)@ == old(self)@.after_reset(),
    {
        self.passed.append(&mut self.holding);
        std::mem::swap(&mut self.holding, &mut self.passed);
    }

    pub fn someone_has_priority(&self) -> (r: bool)
        ensures
            r == (self@.holding.len() > 0 && !self.hold),
    {
        !(self.holding.len() == 0 || self.hold)
    }

    /// A copy of the tracker, for comparing a later state against.
    pub fn snapshot(&self) -> (r: Priority)
        ensures
            r@ == self@,
    {
        Priority {
            holding: copy_deque(&self.holding),
            passed: copy_deque(&self.passed),
            hold: self.hold,
            blocks: self.blocks,
            card_played: self.card_played,
        }
    }

    /// Whether two trackers are in the same state.
    pub fn same_as(&self, other: &Priority) -> (r: bool)
        ensures
            r == (self@ == other@),
    {
        if self.hold != other.hold || self.blocks != other.blocks || self.card_played != other.card_played {
            return false;
        }
        same_deque(&self.holding, &other.holding) && same_deque(&self.passed, &other.passed)
    }
}

fn copy_deque(d: &VecDeque<u32>) -> (r: VecDeque<u32>)
    ensures
        r@ == d@,
{
    let mut r: VecDeque<u32> = VecDeque::new();
    let mut i: usize = 0;
    while i < d.len()
        invariant
            0 <= i <= d@.len(),
            r@ == d@.subrange(0, i as int),
        decreases d@.len() - i,
    {
        r.push_back(d[i]);
        i = i + 1;
        assert(r@ =~= d@.subrange(0, i as int));
    }
    assert(d@.subrange(0, d@.len() as int) =~= d@);
    r
}

fn same_deque(a: &VecDeque<u32>, b: &VecDeque<u32>) -> (r: bool)
    ensures
        r == (a@ == b@),
{
    if a.len() != b.len() {
        return false;
    }
    let mut i: usize = 0;
    while i < a.len()
        invariant
            0 <= i <= a@.len(),
            a@.len() == b@.len(),
            forall|j: int| 0 <= j < i ==> a@[j] == b@[j],
        decreases a@.len() - i,
    {
        if a[i] != b[i] {
            return false;
        }
        i = i + 1;
    }
    assert(a@ =~= b@);
    true
}

} // verus!
