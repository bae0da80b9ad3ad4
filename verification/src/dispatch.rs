//! The classifier: which request, if any, a line of text stands for.
use crate::parser::{
    arrival_rule, budget_set_rule, parse_amount_and_category, parse_budget_and_amount,
    parse_spending_reset_request, parse_spending_total_request, parse_station_and_direction,
    spending_entry_rule, spending_reset_rule, spending_total_rule,
};
use crate::request::StructuredRequest;
use vstd::prelude::*;
use vstd::string::*;
use vstd::utf8::encode_utf8;

verus! {

/// The request that the bytes `s` stand for: that of the first rule that
/// matches, the rules taken in the order summary, reset, arrival, entry,
/// budget. What follows the match is ignored. Text that no rule matches is
/// `NoMatch`.
pub open spec fn classify_rule(s: Seq<u8>) -> StructuredRequest {
    if spending_total_rule(s) is Some {
        StructuredRequest::SpendingTotalQuery
    } else if spending_reset_rule(s) is Some {
        StructuredRequest::SpendingResetQuery
    } else if let Some((_, (direction, station))) = arrival_rule(s) {
        StructuredRequest::NextArrivalQuery { direction, station }
    } else if let Some((_, (amount, category))) = spending_entry_rule(s) {
        StructuredRequest::SpendingEntry { amount, category }
    } else if let Some((_, amount)) = budget_set_rule(s) {
        StructuredRequest::BudgetSet { amount }
    } else {
        StructuredRequest::NoMatch
    }
}

/// Classifies the bytes of a line of text.
pub fn classify(input: &[u8]) -> (r: StructuredRequest)
    ensures
        r == classify_rule(input@),
{
    if parse_spending_total_request(input).is_some() {
        return StructuredRequest::SpendingTotalQuery;
    }
    if parse_spending_reset_request(input).is_some() {
        return StructuredRequest::SpendingResetQuery;
    }
    if let Some((_, (direction, station))) = parse_station_and_direction(input) {
        return StructuredRequest::NextArrivalQuery { direction, station };
    }
    if let Some((_, (amount, category))) = parse_amount_and_category(input) {
        return StructuredRequest::SpendingEntry { amount, category };
    }
    if let Some((_, amount)) = parse_budget_and_amount(input) {
        return StructuredRequest::BudgetSet { amount };
    }
    StructuredRequest::NoMatch
}

/// Classifies a line of text.
pub fn dispatch(text: &str) -> (r: StructuredRequest)
    ensures
        r == classify_rule(encode_utf8(text@)),
{
    classify(text.as_bytes())
}

} // verus!
