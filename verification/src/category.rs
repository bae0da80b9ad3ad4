//! The categories of spending.
use crate::lexicon::{lexicon_rule, lookup, Lexicon};
use crate::token::agrees;
use vstd::prelude::*;
use vstd::string::*;

verus! {

#[derive(Clone, Copy, Debug, PartialEq, Eq, Structural)]
pub enum Category {
    Dining,
    Grocery,
    Travel,
    Merchandise,
    Entertainment,
    Other,
}

impl Lexicon for Category {
    open spec fn alias_count() -> usize {
        6
    }

    open spec fn alias(i: usize) -> (&'static str, Category) {
        match i {
            0 => ("dining", Category::Dining),
            1 => ("grocery", Category::Grocery),
            2 => ("merchandise", Category::Merchandise),
            3 => ("travel", Category::Travel),
            4 => ("entertainment", Category::Entertainment),
            _ => ("other", Category::Other),
        }
    }

    fn count() -> (n: usize) {
        6
    }

    fn entry(i: usize) -> (e: (&'static str, Category)) {
        match i {
            0 => ("dining", Category::Dining),
            1 => ("grocery", Category::Grocery),
            2 => ("merchandise", Category::Merchandise),
            3 => ("travel", Category::Travel),
            4 => ("entertainment", Category::Entertainment),
            _ => ("other", Category::Other),
        }
    }
}

impl Category {
    /// The name shown to a reader.
    pub open spec fn display_name(self) -> Seq<char> {
        match self {
            Category::Dining => "Dining"@,
            Category::Grocery => "Grocery"@,
            Category::Travel => "Travel"@,
            Category::Merchandise => "Merchandise"@,
            Category::Entertainment => "Entertainment"@,
            Category::Other => "Other"@,
        }
    }

    /// The name shown to a reader.
    pub fn to_string(&self) -> (r: String)
        ensures
            r@ == self.display_name(),
    {
        match self {
            Category::Dining => "Dining".to_owned(),
            Category::Grocery => "Grocery".to_owned(),
            Category::Travel => "Travel".to_owned(),
            Category::Merchandise => "Merchandise".to_owned(),
            Category::Entertainment => "Entertainment".to_owned(),
            Category::Other => "Other".to_owned(),
        }
    }
}

/// The category rule: the first category name that stands at the head of
/// `s`, ASCII case ignored.
pub open spec fn category_rule(s: Seq<u8>) -> Option<(int, Category)> {
    lexicon_rule::<Category>(s)
}

/// Consumes a category from the head of `input`.
pub fn parse_category(input: &[u8]) -> (r: Option<(usize, Category)>)
    ensures
        agrees(r, category_rule(input@)),
        r matches Some((n, _)) ==> n <= input@.len(),
{
    lookup::<Category>(input)
}

} // verus!
