//! The two directions of travel.
use crate::lexicon::{lexicon_rule, lookup, Lexicon};
use crate::token::agrees;
use vstd::prelude::*;
use vstd::string::*;

verus! {

#[derive(Clone, Copy, Debug, PartialEq, Eq, Structural)]
pub enum Direction {
    East,
    West,
}

impl Lexicon for Direction {
    open spec fn alias_count() -> usize {
        2
    }

    open spec fn alias(i: usize) -> (&'static str, Direction) {
        match i {
            0 => ("west", Direction::West),
            _ => ("east", Direction::East),
        }
    }

    fn count() -> (n: usize) {
        2
    }

    fn entry(i: usize) -> (e: (&'static str, Direction)) {
        match i {
            0 => ("west", Direction::West),
            _ => ("east", Direction::East),
        }
    }
}

impl Direction {
    /// The name shown to a reader.
    pub open spec fn display_name(self) -> Seq<char> {
        match self {
            Direction::East => "East"@,
            Direction::West => "West"@,
        }
    }

    /// The name shown to a reader.
    pub fn to_string(&self) -> (r: String)
        ensures
            r@ == self.display_name(),
    {
        match self {
            Direction::East => "East".to_owned(),
            Direction::West => "West".to_owned(),
        }
    }
}

/// The direction rule: `west` or `east`, ASCII case ignored.
pub open spec fn direction_rule(s: Seq<u8>) -> Option<(int, Direction)> {
    lexicon_rule::<Direction>(s)
}

/// Consumes a direction from the head of `input`.
pub fn parse_direction(input: &[u8]) -> (r: Option<(usize, Direction)>)
    ensures
        agrees(r, direction_rule(input@)),
        r matches Some((n, _)) ==> n <= input@.len(),
{
    lookup::<Direction>(input)
}

} // verus!
