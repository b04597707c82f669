//! The dice engine: a number of dice of one kind, summed, plus a modifier.
use crate::source::uniform_inclusive;
use rand::rngs::StdRng;
use vstd::prelude::*;

verus! {

/// A kind of die, named by its number of faces.
#[derive(Clone, Copy, Debug, PartialEq, Eq, Structural)]
pub enum Die {
    D6,
}

impl Die {
    pub open spec fn spec_faces(self) -> int {
        match self {
            Die::D6 => 6,
        }
    }

    /// The number of faces of the die.
    pub fn faces(&self) -> (r: i8)
        ensures
            r == self.spec_faces(),
            r >= 1,
    {
        match self {
            Die::D6 => 6,
        }
    }
}

/// Sum of a sequence of die results.
pub open spec fn sum_of(d: Seq<i8>) -> int
    decreases d.len(),
{
    if d.len() == 0 {
        0
    } else {
        sum_of(d.drop_last()) + d.last()
    }
}

/// `d` is a possible record of `count` throws of a die with `faces` faces.
pub open spec fn valid_throws(d: Seq<i8>, count: int, faces: int) -> bool {
    &&& d.len() == count
    &&& forall|i: int| 0 <= i < d.len() ==> 1 <= #[trigger] d[i] <= faces
}

/// `r` is a possible result of rolling `count` dice of `faces` faces plus `modifier`.
pub open spec fn roll_outcome(count: int, faces: int, modifier: int, r: int) -> bool {
    exists|d: Seq<i8>| valid_throws(d, count, faces) && r == sum_of(d) + modifier
}

/// A sum of throws lies between all ones and all maximal faces.
pub proof fn lemma_sum_bounds(d: Seq<i8>, count: int, faces: int)
    requires
        valid_throws(d, count, faces),
    ensures
        count <= sum_of(d) <= count * faces,
    decreases d.len(),
{
    if d.len() > 0 {
        let p = d.drop_last();
        assert(valid_throws(p, count - 1, faces)) by {
            assert forall|i: int| 0 <= i < p.len() implies 1 <= #[trigger] p[i] <= faces by {
                assert(p[i] == d[i]);
            }
        }
        lemma_sum_bounds(p, count - 1, faces);
        assert(1 <= d[d.len() - 1] <= faces);
        assert(sum_of(d) == sum_of(p) + d[d.len() - 1]);
        assert((count - 1) * faces + faces == count * faces) by (nonlinear_arith);
    } else {
        assert(count * faces == 0) by (nonlinear_arith)
            requires
                count == 0,
        ;
    }
}

/// Any roll of `count` dice with `faces` faces plus `modifier` lies in
/// `[count + modifier, count * faces + modifier]`, and a roll of no dice is
/// the modifier itself.
pub proof fn lemma_roll_range(count: int, faces: int, modifier: int, r: int)
    requires
        roll_outcome(count, faces, modifier, r),
    ensures
        count + modifier <= r <= count * faces + modifier,
        count == 0 ==> r == modifier,
{
    let d = choose|d: Seq<i8>| valid_throws(d, count, faces) && r == sum_of(d) + modifier;
    lemma_sum_bounds(d, count, faces);
}

proof fn lemma_sum_push(d: Seq<i8>, x: i8)
    ensures
        sum_of(d.push(x)) == sum_of(d) + x,
{
    assert(d.push(x).drop_last() =~= d);
}

proof fn lemma_sum_prefix_nonneg(d: Seq<i8>, k: int)
    requires
        0 <= k <= d.len(),
        forall|i: int| 0 <= i < d.len() ==> 0 <= #[trigger] d[i],
    ensures
        0 <= sum_of(d.take(k)) <= sum_of(d),
    decreases d.len() - k,
{
    if k < d.len() {
        lemma_sum_prefix_nonneg(d, k + 1);
        let q = d.take(k + 1);
        assert(q.drop_last() =~= d.take(k));
        assert(q[k] == d[k]);
        assert(sum_of(q) == sum_of(d.take(k)) + q[k]);
        assert forall|i: int| 0 <= i < k implies 0 <= #[trigger] d.take(k)[i] by {
            assert(d.take(k)[i] == d[i]);
        }
        lemma_sum_nonneg(d.take(k));
    } else {
        assert(d.take(k) =~= d);
        lemma_sum_nonneg(d);
    }
}

proof fn lemma_sum_nonneg(d: Seq<i8>)
    requires
        forall|i: int| 0 <= i < d.len() ==> 0 <= #[trigger] d[i],
    ensures
        0 <= sum_of(d),
    decreases d.len(),
{
    if d.len() > 0 {
        let p = d.drop_last();
        assert forall|i: int| 0 <= i < p.len() implies 0 <= #[trigger] p[i] by {
            assert(p[i] == d[i]);
        }
        lemma_sum_nonneg(p);
    }
}

/// The total of a roll whose die results are `throws`: their sum plus `modifier`.
pub fn roll_total(throws: &Vec<i8>, modifier: i8) -> (r: i8)
    requires
        forall|i: int| 0 <= i < throws@.len() ==> 0 <= #[trigger] throws@[i],
        i8::MIN <= sum_of(throws@) + modifier <= i8::MAX,
    ensures
        r == sum_of(throws@) + modifier,
{
    let mut acc: i16 = 0;
    let mut i: usize = 0;
    while i < throws.len()
        invariant
            i <= throws@.len(),
            acc == sum_of(throws@.take(i as int)),
            forall|j: int| 0 <= j < throws@.len() ==> 0 <= #[trigger] throws@[j],
            i8::MIN <= sum_of(throws@) + modifier <= i8::MAX,
        decreases throws@.len() - i,
    {
        proof {
            lemma_sum_prefix_nonneg(throws@, i + 1);
            assert(throws@.take(i + 1) =~= throws@.take(i as int).push(throws@[i as int]));
            lemma_sum_push(throws@.take(i as int), throws@[i as int]);
        }
        acc = acc + throws[i] as i16;
        i = i + 1;
    }
    proof {
        assert(throws@.take(i as int) =~= throws@);
    }
    (acc + modifier as i16) as i8
}

/// Rolls `count` dice of kind `die`, each drawn uniformly from its faces, and
/// adds `modifier`.
pub fn roll(rng: &mut StdRng, count: i8, die: Die, modifier: i8) -> (r: i8)
    requires
        0 <= count,
        count * die.spec_faces() + modifier <= i8::MAX,
        count + modifier >= i8::MIN,
    ensures
        roll_outcome(count as int, die.spec_faces(), modifier as int, r as int),
        count + modifier <= r <= count * die.spec_faces() + modifier,
        count == 0 ==> r == modifier,
{
    let faces = die.faces();
    let mut throws: Vec<i8> = Vec::new();
    let mut k: i8 = 0;
    while k < count
        invariant
            0 <= k <= count,
            faces == die.spec_faces(),
            valid_throws(throws@, k as int, faces as int),
        decreases count - k,
    {
        let t = uniform_inclusive(rng, 1, faces as usize) as i8;
        throws.push(t);
        k = k + 1;
    }
    proof {
        lemma_sum_bounds(throws@, count as int, faces as int);
    }
    let r = roll_total(&throws, modifier);
    proof {
        assert(valid_throws(throws@, count as int, faces as int) && r == sum_of(throws@) + modifier);
        lemma_roll_range(count as int, faces as int, modifier as int, r as int);
    }
    r
}

} // verus!
