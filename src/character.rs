//! A whole character: race, then scores for that race, then a class for
//! those scores.
use crate::abilities::{
    generate_scores, possible_scores, race_of_draw, random_race, AbilityScores, Race,
    RACE_DRAW_MAX,
};
use crate::class::{get_class, possible_class, Class};
use rand::rngs::StdRng;
use vstd::prelude::*;

verus! {

/// A generated character.
#[derive(Clone, Copy, Debug, PartialEq, Eq, Structural)]
pub struct Character {
    pub race: Race,
    pub scores: AbilityScores,
    pub class: Class,
}

/// `c` is a character that generation can produce.
pub open spec fn possible_character(c: Character) -> bool {
    &&& exists|d: int| 0 <= d <= RACE_DRAW_MAX && c.race == race_of_draw(d)
    &&& possible_scores(c.race, c.scores)
    &&& possible_class(c.scores, c.class)
}

/// Generates a character from the draws of `rng`.
pub fn generate_character(rng: &mut StdRng) -> (r: Character)
    ensures
        possible_character(r),
{
    let race = random_race(rng);
    let scores = generate_scores(rng, &race);
    let class = get_class(rng, &race, &scores);
    Character { race, scores, class }
}

} // verus!
