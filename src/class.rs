//! Class affinity from comparisons of scores, and the weighted choice of a
//! class.
use crate::abilities::{AbilityScores, Race};
use crate::source::uniform_inclusive;
use rand::rngs::StdRng;
use vstd::prelude::*;

verus! {

/// The class of a character, chosen last from its scores.
#[derive(Clone, Copy, Debug, PartialEq, Eq, Structural)]
pub enum Class {
    Warrior,
    Zealot,
    Thief,
    Mage,
}

/// The largest affinity a class can have.
pub const MAX_AFFINITY: i8 = 12;

/// Points of one comparison: 2 when the primary score is higher, 1 when the
/// two are equal, 0 when it is lower.
pub open spec fn points(primary: i8, rival: i8) -> int {
    if primary > rival {
        2
    } else if primary == rival {
        1
    } else {
        0
    }
}

/// The score that a class is built around.
pub open spec fn primary(s: AbilityScores, c: Class) -> i8 {
    match c {
        Class::Warrior => s.strength,
        Class::Zealot => s.wisdom,
        Class::Thief => s.dexterity,
        Class::Mage => s.intelligence,
    }
}

/// The three scores that the primary score of a class is compared with, in
/// order of comparison.
pub open spec fn rivals(s: AbilityScores, c: Class) -> (i8, i8, i8) {
    match c {
        Class::Warrior => (s.intelligence, s.dexterity, s.wisdom),
        Class::Zealot => (s.intelligence, s.dexterity, s.strength),
        Class::Thief => (s.intelligence, s.strength, s.wisdom),
        Class::Mage => (s.strength, s.dexterity, s.wisdom),
    }
}

/// The affinity of `s` for `c`: twice the points of the three comparisons.
pub open spec fn affinity(s: AbilityScores, c: Class) -> int {
    let p = primary(s, c);
    let (a, b, d) = rivals(s, c);
    2 * (points(p, a) + points(p, b) + points(p, d))
}

/// Points of comparing `primary` with `rival`.
pub fn compare_points(primary: i8, rival: i8) -> (r: i8)
    ensures
        r == points(primary, rival),
{
    if primary > rival {
        2
    } else if primary == rival {
        1
    } else {
        0
    }
}

/// The affinity of `scores` for `class`, between 0 and 12.
pub fn class_score(scores: &AbilityScores, class: Class) -> (r: i8)
    ensures
        r == affinity(*scores, class),
        0 <= r <= MAX_AFFINITY,
{
    let (p, a, b, d) = match class {
        Class::Warrior => (scores.strength, scores.intelligence, scores.dexterity, scores.wisdom),
        Class::Zealot => (scores.wisdom, scores.intelligence, scores.dexterity, scores.strength),
        Class::Thief => (scores.dexterity, scores.intelligence, scores.strength, scores.wisdom),
        Class::Mage => (scores.intelligence, scores.strength, scores.dexterity, scores.wisdom),
    };
    let score = compare_points(p, a) + compare_points(p, b) + compare_points(p, d);
    score * 2
}

/// A class whose primary score is strictly higher than each of its rivals has
/// the largest affinity, 12.
pub proof fn lemma_strict_primary_is_max(s: AbilityScores, c: Class)
    requires
        primary(s, c) > rivals(s, c).0,
        primary(s, c) > rivals(s, c).1,
        primary(s, c) > rivals(s, c).2,
    ensures
        affinity(s, c) == MAX_AFFINITY,
{
}

/// The weighted pool: each class repeated as often as its affinity, in the
/// order Warrior, Zealot, Thief, Mage.
pub open spec fn pool(s: AbilityScores) -> Seq<Class> {
    Seq::new(affinity(s, Class::Warrior) as nat, |i: int| Class::Warrior)
        + Seq::new(affinity(s, Class::Zealot) as nat, |i: int| Class::Zealot)
        + Seq::new(affinity(s, Class::Thief) as nat, |i: int| Class::Thief)
        + Seq::new(affinity(s, Class::Mage) as nat, |i: int| Class::Mage)
}

/// The class at position `pick` of `p`, and Warrior past its end.
pub open spec fn pick_from(p: Seq<Class>, pick: int) -> Class {
    if 0 <= pick < p.len() {
        p[pick]
    } else {
        Class::Warrior
    }
}

/// The pool holds as many entries as the four affinities add up to.
pub proof fn lemma_pool_len(s: AbilityScores)
    ensures
        pool(s).len() == affinity(s, Class::Warrior) + affinity(s, Class::Zealot) + affinity(
            s,
            Class::Thief,
        ) + affinity(s, Class::Mage),
{
}

/// The pool is never empty: Warrior and Zealot compare strength and wisdom
/// both ways, so their affinities add up to at least 4.
pub proof fn lemma_pool_nonempty(s: AbilityScores)
    ensures
        affinity(s, Class::Warrior) + affinity(s, Class::Zealot) >= 4,
        pool(s).len() >= 4,
{
    lemma_pool_len(s);
}

/// The choice by cumulative weight: the draws below Warrior's affinity give
/// Warrior, the next Zealot's affinity of them give Zealot, then Thief, then
/// Mage, and every draw past the pool gives Warrior.
pub proof fn lemma_pick_by_cumulative_weight(s: AbilityScores, pick: int)
    requires
        0 <= pick,
    ensures
        ({
            let w = affinity(s, Class::Warrior);
            let z = w + affinity(s, Class::Zealot);
            let t = z + affinity(s, Class::Thief);
            let m = t + affinity(s, Class::Mage);
            pick_from(pool(s), pick) == if pick < w {
                Class::Warrior
            } else if pick < z {
                Class::Zealot
            } else if pick < t {
                Class::Thief
            } else if pick < m {
                Class::Mage
            } else {
                Class::Warrior
            }
        }),
{
    lemma_pool_len(s);
}

/// `c` is a class that the weighted choice can give for `s`: the draw ranges
/// over `0..=pool(s).len()`.
pub open spec fn possible_class(s: AbilityScores, c: Class) -> bool {
    exists|pick: int| 0 <= pick <= pool(s).len() && c == pick_from(pool(s), pick)
}

fn push_repeated(v: &mut Vec<Class>, c: Class, n: i8)
    requires
        n >= 0,
    ensures
        final(v)@ == old(v)@ + Seq::new(n as nat, |i: int| c),
{
    let ghost start = v@;
    let mut k: i8 = 0;
    while k < n
        invariant
            0 <= k <= n,
            v@ == start + Seq::new(k as nat, |i: int| c),
        decreases n - k,
    {
        v.push(c);
        k = k + 1;
        proof {
            assert(v@ =~= start + Seq::new(k as nat, |i: int| c));
        }
    }
}

/// Builds the weighted pool of `scores`.
pub fn class_pool(scores: &AbilityScores) -> (r: Vec<Class>)
    ensures
        r@ == pool(*scores),
{
    let mut options: Vec<Class> = Vec::new();
    push_repeated(&mut options, Class::Warrior, class_score(scores, Class::Warrior));
    push_repeated(&mut options, Class::Zealot, class_score(scores, Class::Zealot));
    push_repeated(&mut options, Class::Thief, class_score(scores, Class::Thief));
    push_repeated(&mut options, Class::Mage, class_score(scores, Class::Mage));
    proof {
        assert(options@ =~= pool(*scores));
    }
    options
}

/// The class at position `pick` of `options`, or Warrior where `pick` lies
/// past its end.
pub fn choose_from_pool(options: &Vec<Class>, pick: usize) -> (r: Class)
    ensures
        r == pick_from(options@, pick as int),
{
    if pick < options.len() {
        options[pick]
    } else {
        Class::Warrior
    }
}

/// The class that the draw `pick` selects for `scores`.
pub fn class_for_pick(scores: &AbilityScores, pick: usize) -> (r: Class)
    ensures
        r == pick_from(pool(*scores), pick as int),
{
    let options = class_pool(scores);
    choose_from_pool(&options, pick)
}

/// Chooses a class for `scores`, each class weighted by its affinity: a draw
/// uniform over `0..=n`, where `n` is the size of the pool, picks a place in
/// the pool, and the draw `n` itself gives Warrior. The race plays no part.
pub fn get_class(rng: &mut StdRng, _race: &Race, scores: &AbilityScores) -> (r: Class)
    ensures
        possible_class(*scores, r),
        affinity(*scores, Class::Warrior) == 0 && affinity(*scores, Class::Zealot) == 0
            && affinity(*scores, Class::Thief) == 0 && affinity(*scores, Class::Mage) == 0
            ==> r == Class::Warrior,
{
    proof {
        lemma_pool_len(*scores);
    }
    let options = class_pool(scores);
    let pick = uniform_inclusive(rng, 0, options.len());
    choose_from_pool(&options, pick)
}

} // verus!
