//! Random tabletop character generation: dice, race-dependent ability
//! scores, and a weighted class choice driven by comparisons of scores.
pub mod source;
pub mod dice;
pub mod abilities;
pub mod class;
pub mod character;
