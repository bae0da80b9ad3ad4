//! The structured requests that a line of text can stand for.
use crate::category::Category;
use crate::direction::Direction;
use crate::station::Station;
use crate::token::ParsedAmount;
use vstd::prelude::*;

verus! {

/// A question for the next train at a station in a direction.
#[derive(Clone, Copy, Debug, PartialEq, Eq, Structural)]
pub struct NextArrivalRequest {
    pub station: Station,
    pub direction: Direction,
}

/// An amount spent, or a budget to set. A missing category is left missing:
/// whoever books the entry decides what it defaults to.
#[derive(Clone, Copy, Debug, PartialEq, Eq, Structural)]
pub struct SpentRequest {
    pub amount: ParsedAmount,
    pub category: Option<Category>,
}

/// What a line of text asks for.
#[derive(Clone, Copy, Debug, PartialEq, Eq, Structural)]
pub enum StructuredRequest {
    NextArrivalQuery { direction: Direction, station: Station },
    SpendingEntry { amount: ParsedAmount, category: Option<Category> },
    BudgetSet { amount: ParsedAmount },
    SpendingTotalQuery,
    SpendingResetQuery,
    NoMatch,
}

} // verus!
