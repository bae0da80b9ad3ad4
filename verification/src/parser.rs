//! The grammar rules, one for each command, and the questions asked of a
//! whole line of text.
//!
//! A rule looks at the head of the text only: what follows a match is left
//! alone. Between two words stands a separator of one or more blanks.
use crate::category::{category_rule, parse_category, Category};
use crate::direction::{direction_rule, parse_direction, Direction};
use crate::request::{NextArrivalRequest, SpentRequest};
use crate::station::{parse_station, station_rule, Station};
use crate::token::{
    agrees, agrees_len, decimal_rule, literal_ci, literal_rule, parse_price, space1, space_rule,
    ParsedAmount,
};
use vstd::prelude::*;
use vstd::slice::slice_subrange;
use vstd::string::*;
use vstd::utf8::encode_utf8;

verus! {

/// The arrival rule: a direction, a separator, a station.
pub open spec fn arrival_rule(s: Seq<u8>) -> Option<(int, (Direction, Station))> {
    match direction_rule(s) {
        Some((n1, direction)) => match space_rule(s.skip(n1)) {
            Some(n2) => match station_rule(s.skip(n1 + n2)) {
                Some((n3, station)) => Some((n1 + n2 + n3, (direction, station))),
                None => None,
            },
            None => None,
        },
        None => None,
    }
}

/// Two words with a separator between them.
pub open spec fn word_pair_rule(s: Seq<u8>, first: Seq<u8>, second: Seq<u8>) -> Option<int> {
    match literal_rule(s, first) {
        Some(n1) => match space_rule(s.skip(n1)) {
            Some(n2) => match literal_rule(s.skip(n1 + n2), second) {
                Some(n3) => Some(n1 + n2 + n3),
                None => None,
            },
            None => None,
        },
        None => None,
    }
}

/// The summary rule: `spent`, a separator, `total`.
pub open spec fn spending_total_rule(s: Seq<u8>) -> Option<int> {
    word_pair_rule(s, "spent".spec_bytes(), "total".spec_bytes())
}

/// The reset rule: `spent`, a separator, `reset`.
pub open spec fn spending_reset_rule(s: Seq<u8>) -> Option<int> {
    word_pair_rule(s, "spent".spec_bytes(), "reset".spec_bytes())
}

/// A word, a separator and a decimal number.
pub open spec fn word_amount_rule(s: Seq<u8>, word: Seq<u8>) -> Option<(int, ParsedAmount)> {
    match literal_rule(s, word) {
        Some(n1) => match space_rule(s.skip(n1)) {
            Some(n2) => match decimal_rule(s.skip(n1 + n2)) {
                Some((n3, amount)) => Some((n1 + n2 + n3, amount)),
                None => None,
            },
            None => None,
        },
        None => None,
    }
}

/// A separator and a category. Where either is missing, nothing is consumed.
pub open spec fn category_suffix_rule(s: Seq<u8>) -> Option<(int, Category)> {
    match space_rule(s) {
        Some(n1) => match category_rule(s.skip(n1)) {
            Some((n2, category)) => Some((n1 + n2, category)),
            None => None,
        },
        None => None,
    }
}

/// The entry rule: `spent`, a separator, a decimal number, and optionally a
/// separator and a category.
pub open spec fn spending_entry_rule(s: Seq<u8>) -> Option<(int, (ParsedAmount, Option<Category>))> {
    match word_amount_rule(s, "spent".spec_bytes()) {
        Some((n1, amount)) => match category_suffix_rule(s.skip(n1)) {
            Some((n2, category)) => Some((n1 + n2, (amount, Some(category)))),
            None => Some((n1, (amount, None))),
        },
        None => None,
    }
}

/// The budget rule: `budget`, a separator, a decimal number.
pub open spec fn budget_set_rule(s: Seq<u8>) -> Option<(int, ParsedAmount)> {
    word_amount_rule(s, "budget".spec_bytes())
}

/// The arrival request that a text stands for, if any.
pub open spec fn arrival_request(s: Seq<u8>) -> Option<NextArrivalRequest> {
    match arrival_rule(s) {
        Some((_, (direction, station))) => Some(NextArrivalRequest { station, direction }),
        None => None,
    }
}

/// The spending entry that a text stands for, if any.
pub open spec fn spending_request(s: Seq<u8>) -> Option<SpentRequest> {
    match spending_entry_rule(s) {
        Some((_, (amount, category))) => Some(SpentRequest { amount, category }),
        None => None,
    }
}

/// The budget that a text sets, if any.
pub open spec fn budget_request(s: Seq<u8>) -> Option<SpentRequest> {
    match budget_set_rule(s) {
        Some((_, amount)) => Some(SpentRequest { amount, category: None }),
        None => None,
    }
}

/// The rest of `input` from `n` on.
fn rest(input: &[u8], n: usize) -> (r: &[u8])
    requires
        n <= input@.len(),
    ensures
        r@ == input@.skip(n as int),
        input@.len() <= usize::MAX,
{
    slice_subrange(input, n, input.len())
}

fn word_pair(input: &[u8], first: &str, second: &str) -> (r: Option<usize>)
    ensures
        agrees_len(r, word_pair_rule(input@, first.spec_bytes(), second.spec_bytes())),
        r matches Some(n) ==> n <= input@.len(),
{
    let n1 = literal_ci(input, first.as_bytes())?;
    let n2 = space1(rest(input, n1))?;
    let n3 = literal_ci(rest(input, n1 + n2), second.as_bytes())?;
    Some(n1 + n2 + n3)
}

fn word_amount(input: &[u8], word: &str) -> (r: Option<(usize, ParsedAmount)>)
    ensures
        agrees(r, word_amount_rule(input@, word.spec_bytes())),
        r matches Some((n, _)) ==> n <= input@.len(),
{
    let n1 = literal_ci(input, word.as_bytes())?;
    let n2 = space1(rest(input, n1))?;
    let (n3, amount) = parse_price(rest(input, n1 + n2))?;
    Some((n1 + n2 + n3, amount))
}

fn category_suffix(input: &[u8]) -> (r: Option<(usize, Category)>)
    ensures
        agrees(r, category_suffix_rule(input@)),
        r matches Some((n, _)) ==> n <= input@.len(),
{
    let n1 = space1(input)?;
    let (n2, category) = parse_category(rest(input, n1))?;
    Some((n1 + n2, category))
}

/// Consumes a direction, a separator and a station.
pub fn parse_station_and_direction(input: &[u8]) -> (r: Option<(usize, (Direction, Station))>)
    ensures
        agrees(r, arrival_rule(input@)),
        r matches Some((n, _)) ==> n <= input@.len(),
{
    let (n1, direction) = parse_direction(input)?;
    let n2 = space1(rest(input, n1))?;
    let (n3, station) = parse_station(rest(input, n1 + n2))?;
    Some((n1 + n2 + n3, (direction, station)))
}

/// Consumes `spent`, a separator and `total`.
pub fn parse_spending_total_request(input: &[u8]) -> (r: Option<usize>)
    ensures
        agrees_len(r, spending_total_rule(input@)),
        r matches Some(n) ==> n <= input@.len(),
{
    word_pair(input, "spent", "total")
}

/// Consumes `spent`, a separator and `reset`.
pub fn parse_spending_reset_request(input: &[u8]) -> (r: Option<usize>)
    ensures
        agrees_len(r, spending_reset_rule(input@)),
        r matches Some(n) ==> n <= input@.len(),
{
    word_pair(input, "spent", "reset")
}

/// Consumes `spent`, a separator, an amount and, where they follow, a
/// separator and a category.
pub fn parse_amount_and_category(input: &[u8]) -> (r: Option<(usize, (ParsedAmount, Option<Category>))>)
    ensures
        agrees(r, spending_entry_rule(input@)),
        r matches Some((n, _)) ==> n <= input@.len(),
{
    let (n1, amount) = word_amount(input, "spent")?;
    match category_suffix(rest(input, n1)) {
        Some((n2, category)) => Some((n1 + n2, (amount, Some(category)))),
        None => Some((n1, (amount, None))),
    }
}

/// Consumes `budget`, a separator and an amount.
pub fn parse_budget_and_amount(input: &[u8]) -> (r: Option<(usize, ParsedAmount)>)
    ensures
        agrees(r, budget_set_rule(input@)),
        r matches Some((n, _)) ==> n <= input@.len(),
{
    word_amount(input, "budget")
}

/// The arrival request at the head of the text `s`.
pub fn parse_metro_request(s: String) -> (r: Option<NextArrivalRequest>)
    ensures
        r == arrival_request(encode_utf8(s@)),
{
    match parse_station_and_direction(s.as_str().as_bytes()) {
        Some((_, (direction, station))) => Some(NextArrivalRequest { station, direction }),
        None => None,
    }
}

/// The spending entry at the head of the text `s`.
pub fn parse_spending_request(s: String) -> (r: Option<SpentRequest>)
    ensures
        r == spending_request(encode_utf8(s@)),
{
    match parse_amount_and_category(s.as_str().as_bytes()) {
        Some((_, (amount, category))) => Some(SpentRequest { amount, category }),
        None => None,
    }
}

/// The budget set at the head of the text `s`.
pub fn parse_budget_request(s: String) -> (r: Option<SpentRequest>)
    ensures
        r == budget_request(encode_utf8(s@)),
{
    match parse_budget_and_amount(s.as_str().as_bytes()) {
        Some((_, amount)) => Some(SpentRequest { amount, category: None }),
        None => None,
    }
}

/// Whether the text `s` asks for the spending summary.
pub fn is_spending_total_request(s: String) -> (r: bool)
    ensures
        r == spending_total_rule(encode_utf8(s@)).is_some(),
{
    parse_spending_total_request(s.as_str().as_bytes()).is_some()
}

/// Whether the text `s` asks to reset the spending.
pub fn is_spending_reset_request(s: String) -> (r: bool)
    ensures
        r == spending_reset_rule(encode_utf8(s@)).is_some(),
{
    parse_spending_reset_request(s.as_str().as_bytes()).is_some()
}

} // verus!
