//! Race selection and the race-dependent generation of ability scores.
use crate::dice::{lemma_roll_range, roll, roll_outcome, Die};
use crate::source::uniform_inclusive;
use rand::rngs::StdRng;
use vstd::prelude::*;

verus! {

/// The score that a race has fixed rather than rolled.
pub const FIXED_SCORE: i8 = 13;

/// The largest value of the draw that selects a race.
pub const RACE_DRAW_MAX: usize = 6;

/// The race of a character, chosen first; it decides how the scores are made.
#[derive(Clone, Copy, Debug, PartialEq, Eq, Structural)]
pub enum Race {
    Human,
    Elf,
    Dwarf,
    Halfling,
}

/// The six ability scores of a character.
#[derive(Clone, Copy, Debug, PartialEq, Eq, Structural)]
pub struct AbilityScores {
    pub strength: i8,
    pub dexterity: i8,
    pub constitution: i8,
    pub intelligence: i8,
    pub wisdom: i8,
    pub charisma: i8,
}

/// The race that a draw in `0..=6` selects: one value each for Halfling, Elf
/// and Dwarf, the other four for Human.
pub open spec fn race_of_draw(d: int) -> Race {
    if d == 0 {
        Race::Halfling
    } else if d == 1 {
        Race::Elf
    } else if d == 2 {
        Race::Dwarf
    } else {
        Race::Human
    }
}

/// The race selected by the draw `d`.
pub fn race_from_draw(d: usize) -> (r: Race)
    requires
        d <= RACE_DRAW_MAX,
    ensures
        r == race_of_draw(d as int),
{
    match d {
        0 => Race::Halfling,
        1 => Race::Elf,
        2 => Race::Dwarf,
        _ => Race::Human,
    }
}

/// Draws a race: a value uniform over `0..=6`, mapped by `race_from_draw`.
pub fn random_race(rng: &mut StdRng) -> (r: Race)
    ensures
        exists|d: int| 0 <= d <= RACE_DRAW_MAX && r == race_of_draw(d),
{
    let d = uniform_inclusive(rng, 0, RACE_DRAW_MAX);
    race_from_draw(d)
}

/// A possible result of three six-sided dice.
pub open spec fn is_3d6(x: i8) -> bool {
    roll_outcome(3, 6, 0, x as int)
}

/// A possible result of two six-sided dice plus three.
pub open spec fn is_2d6_plus_3(x: i8) -> bool {
    roll_outcome(2, 6, 3, x as int)
}

/// `s` is a possible set of scores for `race`: each score is either the
/// race's fixed value or a possible result of the dice the race rolls for it.
pub open spec fn possible_scores(race: Race, s: AbilityScores) -> bool {
    match race {
        Race::Human => {
            &&& is_3d6(s.strength)
            &&& is_3d6(s.dexterity)
            &&& is_3d6(s.constitution)
            &&& is_3d6(s.intelligence)
            &&& is_3d6(s.wisdom)
            &&& is_3d6(s.charisma)
        },
        Race::Elf => {
            &&& is_2d6_plus_3(s.strength)
            &&& s.dexterity == FIXED_SCORE
            &&& is_2d6_plus_3(s.constitution)
            &&& s.intelligence == FIXED_SCORE
            &&& is_2d6_plus_3(s.wisdom)
            &&& is_2d6_plus_3(s.charisma)
        },
        Race::Dwarf => {
            &&& s.strength == FIXED_SCORE
            &&& is_2d6_plus_3(s.dexterity)
            &&& s.constitution == FIXED_SCORE
            &&& is_2d6_plus_3(s.intelligence)
            &&& is_2d6_plus_3(s.wisdom)
            &&& is_2d6_plus_3(s.charisma)
        },
        Race::Halfling => {
            &&& is_2d6_plus_3(s.strength)
            &&& is_2d6_plus_3(s.dexterity)
            &&& is_2d6_plus_3(s.constitution)
            &&& is_2d6_plus_3(s.intelligence)
            &&& s.wisdom == FIXED_SCORE
            &&& s.charisma == FIXED_SCORE
        },
    }
}

/// `x` lies in `[lo, hi]`.
pub open spec fn in_range(x: i8, lo: int, hi: int) -> bool {
    lo <= x <= hi
}

/// Every possible set of scores of a Human lies in `[3, 18]`; an Elf has
/// dexterity and intelligence 13 and its other scores in `[5, 15]`; a Dwarf
/// and a Halfling have their rolled scores in `[5, 15]` too.
pub proof fn lemma_score_ranges(race: Race, s: AbilityScores)
    requires
        possible_scores(race, s),
    ensures
        race == Race::Human ==> {
            &&& in_range(s.strength, 3, 18)
            &&& in_range(s.dexterity, 3, 18)
            &&& in_range(s.constitution, 3, 18)
            &&& in_range(s.intelligence, 3, 18)
            &&& in_range(s.wisdom, 3, 18)
            &&& in_range(s.charisma, 3, 18)
        },
        race == Race::Elf ==> {
            &&& s.dexterity == 13
            &&& s.intelligence == 13
            &&& in_range(s.strength, 5, 15)
            &&& in_range(s.constitution, 5, 15)
            &&& in_range(s.wisdom, 5, 15)
            &&& in_range(s.charisma, 5, 15)
        },
        race == Race::Dwarf ==> {
            &&& s.strength == 13
            &&& s.constitution == 13
            &&& in_range(s.dexterity, 5, 15)
            &&& in_range(s.intelligence, 5, 15)
            &&& in_range(s.wisdom, 5, 15)
            &&& in_range(s.charisma, 5, 15)
        },
        race == Race::Halfling ==> {
            &&& s.wisdom == 13
            &&& s.charisma == 13
            &&& in_range(s.strength, 5, 15)
            &&& in_range(s.dexterity, 5, 15)
            &&& in_range(s.constitution, 5, 15)
            &&& in_range(s.intelligence, 5, 15)
        },
{
    match race {
        Race::Human => {
            lemma_roll_range(3, 6, 0, s.strength as int);
            lemma_roll_range(3, 6, 0, s.dexterity as int);
            lemma_roll_range(3, 6, 0, s.constitution as int);
            lemma_roll_range(3, 6, 0, s.intelligence as int);
            lemma_roll_range(3, 6, 0, s.wisdom as int);
            lemma_roll_range(3, 6, 0, s.charisma as int);
        },
        Race::Elf => {
            lemma_roll_range(2, 6, 3, s.strength as int);
            lemma_roll_range(2, 6, 3, s.constitution as int);
            lemma_roll_range(2, 6, 3, s.wisdom as int);
            lemma_roll_range(2, 6, 3, s.charisma as int);
        },
        Race::Dwarf => {
            lemma_roll_range(2, 6, 3, s.dexterity as int);
            lemma_roll_range(2, 6, 3, s.intelligence as int);
            lemma_roll_range(2, 6, 3, s.wisdom as int);
            lemma_roll_range(2, 6, 3, s.charisma as int);
        },
        Race::Halfling => {
            lemma_roll_range(2, 6, 3, s.strength as int);
            lemma_roll_range(2, 6, 3, s.dexterity as int);
            lemma_roll_range(2, 6, 3, s.constitution as int);
            lemma_roll_range(2, 6, 3, s.intelligence as int);
        },
    }
}

fn roll_3d6(rng: &mut StdRng) -> (r: i8)
    ensures
        is_3d6(r),
{
    roll(rng, 3, Die::D6, 0)
}

fn roll_2d6_plus_3(rng: &mut StdRng) -> (r: i8)
    ensures
        is_2d6_plus_3(r),
{
    roll(rng, 2, Die::D6, 3)
}

/// Generates the six scores of a character of `race`: Humans roll 3d6 for
/// each; the other races have two scores fixed at 13 and roll 2d6+3 for the
/// other four.
pub fn generate_scores(rng: &mut StdRng, race: &Race) -> (r: AbilityScores)
    ensures
        possible_scores(*race, r),
{
    match race {
        Race::Human => AbilityScores {
            strength: roll_3d6(rng),
            dexterity: roll_3d6(rng),
            constitution: roll_3d6(rng),
            intelligence: roll_3d6(rng),
            wisdom: roll_3d6(rng),
            charisma: roll_3d6(rng),
        },
        Race::Elf => AbilityScores {
            strength: roll_2d6_plus_3(rng),
            dexterity: FIXED_SCORE,
            constitution: roll_2d6_plus_3(rng),
            intelligence: FIXED_SCORE,
            wisdom: roll_2d6_plus_3(rng),
            charisma: roll_2d6_plus_3(rng),
        },
        Race::Dwarf => AbilityScores {
            strength: FIXED_SCORE,
            dexterity: roll_2d6_plus_3(rng),
            constitution: FIXED_SCORE,
            intelligence: roll_2d6_plus_3(rng),
            wisdom: roll_2d6_plus_3(rng),
            charisma: roll_2d6_plus_3(rng),
        },
        Race::Halfling => AbilityScores {
            strength: roll_2d6_plus_3(rng),
            dexterity: roll_2d6_plus_3(rng),
            constitution: roll_2d6_plus_3(rng),
            intelligence: roll_2d6_plus_3(rng),
            wisdom: FIXED_SCORE,
            charisma: FIXED_SCORE,
        },
    }
}

} // verus!
