//! Who goes first: every contender rolls two dice, the highest total wins, ties roll again.
use vstd::prelude::*;

verus! {

/// Relies on rand's `thread_rng` and `Rng::gen_range`, which draws from an inclusive range and
/// panics only on an empty one.
#[verifier::external_body]
fn random_in_range(low: u32, high: u32) -> (r: u32)
    requires
        low <= high,
    ensures
        low <= r <= high,
{
    rand::Rng::gen_range(&mut rand::thread_rng(), low..=high)
}

/// The largest total among `rolls`, where there is one.
pub open spec fn max_total(rolls: Seq<(u32, u32)>) -> u32
    decreases rolls.len(),
{
    if rolls.len() == 0 {
        0
    } else {
        let m = max_total(rolls.drop_last());
        if rolls.last().1 > m {
            rolls.last().1
        } else {
            m
        }
    }
}

/// The contenders of `rolls` whose total is `m`, in their order.
pub open spec fn rolled(rolls: Seq<(u32, u32)>, m: u32) -> Seq<u32>
    decreases rolls.len(),
{
    if rolls.len() == 0 {
        Seq::empty()
    } else if rolls.last().1 == m {
        rolled(rolls.drop_last(), m).push(rolls.last().0)
    } else {
        rolled(rolls.drop_last(), m)
    }
}

proof fn lemma_max_total_bounds(rolls: Seq<(u32, u32)>)
    ensures
        forall|i: int| 0 <= i < rolls.len() ==> rolls[i].1 <= max_total(rolls),
        rolls.len() > 0 ==> exists|i: int| 0 <= i < rolls.len() && rolls[i].1 == max_total(rolls),
    decreases rolls.len(),
{
    if rolls.len() > 0 {
        lemma_max_total_bounds(rolls.drop_last());
        if rolls.drop_last().len() > 0 && rolls.last().1 <= max_total(rolls.drop_last()) {
            let i = choose|i: int| 0 <= i < rolls.drop_last().len() && rolls.drop_last()[i].1 == max_total(rolls.drop_last());
            assert(rolls[i] == rolls.drop_last()[i]);
        } else {
            assert(rolls[rolls.len() - 1] == rolls.last());
        }
        assert forall|i: int| 0 <= i < rolls.len() implies rolls[i].1 <= max_total(rolls) by {
            if i < rolls.len() - 1 {
                assert(rolls[i] == rolls.drop_last()[i]);
            }
        }
    }
}

proof fn lemma_rolled_nonempty(rolls: Seq<(u32, u32)>, m: u32, i: int)
    requires
        0 <= i < rolls.len(),
        rolls[i].1 == m,
    ensures
        rolled(rolls, m).len() > 0,
    decreases rolls.len(),
{
    if i < rolls.len() - 1 {
        assert(rolls.drop_last()[i] == rolls[i]);
        lemma_rolled_nonempty(rolls.drop_last(), m, i);
    }
}

proof fn lemma_rolled_members(rolls: Seq<(u32, u32)>, m: u32)
    ensures
        forall|k: int| 0 <= k < rolled(rolls, m).len() ==> exists|i: int| 0 <= i < rolls.len() && rolls[i].0 == #[trigger] rolled(rolls, m)[k],
    decreases rolls.len(),
{
    if rolls.len() > 0 {
        lemma_rolled_members(rolls.drop_last(), m);
        let prev = rolled(rolls.drop_last(), m);
        assert forall|k: int| 0 <= k < rolled(rolls, m).len() implies exists|i: int| 0 <= i < rolls.len() && rolls[i].0 == #[trigger] rolled(rolls, m)[k] by {
            if k < prev.len() {
                let i = choose|i: int| 0 <= i < rolls.drop_last().len() && rolls.drop_last()[i].0 == prev[k];
                assert(rolls[i] == rolls.drop_last()[i]);
            } else {
                assert(rolls[rolls.len() - 1] == rolls.last());
            }
        }
    }
}

/// The contenders whose total is the highest, in the order they rolled.
pub fn highest_rollers(rolls: &Vec<(u32, u32)>) -> (r: Vec<u32>)
    ensures
        r@ == rolled(rolls@, max_total(rolls@)),
{
    let mut m: u32 = 0;
    let mut i: usize = 0;
    while i < rolls.len()
        invariant
            0 <= i <= rolls@.len(),
            m == max_total(rolls@.subrange(0, i as int)),
        decreases rolls@.len() - i,
    {
        assert(rolls@.subrange(0, i as int + 1).drop_last() =~= rolls@.subrange(0, i as int));
        if rolls[i].1 > m {
            m = rolls[i].1;
        }
        i = i + 1;
    }
    assert(rolls@.subrange(0, rolls@.len() as int) =~= rolls@);
    let mut r: Vec<u32> = Vec::new();
    let mut j: usize = 0;
    while j < rolls.len()
        invariant
            0 <= j <= rolls@.len(),
            m == max_total(rolls@),
            r@ == rolled(rolls@.subrange(0, j as int), m),
        decreases rolls@.len() - j,
    {
        assert(rolls@.subrange(0, j as int + 1).drop_last() =~= rolls@.subrange(0, j as int));
        if rolls[j].1 == m {
            r.push(rolls[j].0);
        }
        j = j + 1;
    }
    assert(rolls@.subrange(0, rolls@.len() as int) =~= rolls@);
    r
}

/// `rolls` gives each of `contenders`, in order, the total of two six-sided dice.
pub open spec fn two_dice_each(rolls: Seq<(u32, u32)>, contenders: Seq<u32>) -> bool {
    &&& rolls.len() == contenders.len()
    &&& forall|k: int| 0 <= k < rolls.len() ==> #[trigger] rolls[k].0 == contenders[k] && 2
        <= rolls[k].1 <= 12
}

/// One round of rolls: each contender rolls two six-sided dice, and those with the highest
/// total stay in contention. Some contender always stays, and only contenders do.
pub fn roll_round(contenders: &Vec<u32>) -> (r: Vec<u32>)
    ensures
        exists|rolls: Seq<(u32, u32)>| #[trigger] two_dice_each(rolls, contenders@) && r@ == rolled(rolls, max_total(rolls)),
        contenders@.len() > 0 ==> r@.len() > 0,
        forall|k: int| 0 <= k < r@.len() ==> contenders@.contains(#[trigger] r@[k]),
{
    let mut rolls: Vec<(u32, u32)> = Vec::new();
    let mut i: usize = 0;
    while i < contenders.len()
        invariant
            0 <= i <= contenders@.len(),
            rolls@.len() == i,
            forall|k: int| 0 <= k < i ==> #[trigger] rolls@[k].0 == contenders@[k] && 2 <= rolls@[k].1 <= 12,
        decreases contenders@.len() - i,
    {
        let first_die = random_in_range(1, 6);
        let second_die = random_in_range(1, 6);
        rolls.push((contenders[i], first_die + second_die));
        i = i + 1;
    }
    let r = highest_rollers(&rolls);
    proof {
        assert(two_dice_each(rolls@, contenders@));
        lemma_max_total_bounds(rolls@);
        if rolls@.len() > 0 {
            let w = choose|w: int| 0 <= w < rolls@.len() && rolls@[w].1 == max_total(rolls@);
            lemma_rolled_nonempty(rolls@, max_total(rolls@), w);
        }
        lemma_rolled_members(rolls@, max_total(rolls@));
        assert forall|k: int| 0 <= k < r@.len() implies contenders@.contains(#[trigger] r@[k]) by {
            let w = choose|w: int| 0 <= w < rolls@.len() && rolls@[w].0 == r@[k];
            assert(contenders@[w] == r@[k]);
        }
    }
    r
}

/// The position of the first `first` in `players`, or its length where there is none.
pub open spec fn first_index(players: Seq<u32>, first: u32) -> int
    decreases players.len(),
{
    if players.len() == 0 {
        0
    } else if players[0] == first {
        0
    } else {
        1 + first_index(players.drop_first(), first)
    }
}

/// The seating from `first` on, then those seated before it.
pub open spec fn turn_order_spec(players: Seq<u32>, first: u32) -> Seq<u32> {
    let i = first_index(players, first);
    players.subrange(i, players.len() as int) + players.subrange(0, i)
}

proof fn lemma_first_index(players: Seq<u32>, first: u32)
    ensures
        0 <= first_index(players, first) <= players.len(),
        forall|j: int| 0 <= j < first_index(players, first) ==> players[j] != first,
        first_index(players, first) < players.len() ==> players[first_index(players, first)] == first,
    decreases players.len(),
{
    if players.len() > 0 && players[0] != first {
        lemma_first_index(players.drop_first(), first);
        assert forall|j: int| 0 <= j < first_index(players, first) implies players[j] != first by {
            if j > 0 {
                assert(players[j] == players.drop_first()[j - 1]);
            }
        }
    }
}

/// The turn order that starts with `first` and keeps the seating of `players`.
pub fn turn_order(players: &Vec<u32>, first: u32) -> (r: Vec<u32>)
    ensures
        r@ == turn_order_spec(players@, first),
{
    proof {
        lemma_first_index(players@, first);
    }
    let mut i: usize = 0;
    while i < players.len() && players[i] != first
        invariant
            0 <= i <= players@.len(),
            forall|j: int| 0 <= j < i ==> players@[j] != first,
            i <= first_index(players@, first),
            0 <= first_index(players@, first) <= players@.len(),
            forall|j: int| 0 <= j < first_index(players@, first) ==> players@[j] != first,
            first_index(players@, first) < players@.len() ==> players@[first_index(players@, first)] == first,
        decreases players@.len() - i,
    {
        i = i + 1;
    }
    assert(i == first_index(players@, first));
    let mut r: Vec<u32> = Vec::new();
    let mut k: usize = i;
    while k < players.len()
        invariant
            i <= k <= players@.len(),
            r@ == players@.subrange(i as int, k as int),
        decreases players@.len() - k,
    {
        r.push(players[k]);
        k = k + 1;
        assert(r@ =~= players@.subrange(i as int, k as int));
    }
    let mut k: usize = 0;
    while k < i
        invariant
            0 <= k <= i <= players@.len(),
            r@ == players@.subrange(i as int, players@.len() as int) + players@.subrange(0, k as int),
        decreases i - k,
    {
        r.push(players[k]);
        k = k + 1;
        assert(r@ =~= players@.subrange(i as int, players@.len() as int) + players@.subrange(0, k as int));
    }
    r
}

} // verus!
