//! Lexicons: ordered lists of aliases for the values of a closed
//! enumeration, searched from the front. The first alias that stands at the
//! head of the text wins, whether or not a later one would match more.
use crate::token::{agrees, literal_ci, starts_with_ci};
use vstd::prelude::*;
use vstd::string::*;

verus! {

/// A closed set of values, each known by one or more aliases. The order of
/// the aliases is part of the grammar.
pub trait Lexicon: Sized + Copy {
    /// How many aliases there are.
    spec fn alias_count() -> usize;

    /// The alias at place `i` and the value it stands for.
    spec fn alias(i: usize) -> (&'static str, Self);

    /// How many aliases there are.
    fn count() -> (n: usize)
        ensures
            n == Self::alias_count(),
    ;

    /// The alias at place `i` and the value it stands for.
    fn entry(i: usize) -> (e: (&'static str, Self))
        requires
            i < Self::alias_count(),
        ensures
            e == Self::alias(i),
    ;
}

/// The bytes of the alias at place `i`.
pub open spec fn alias_text<T: Lexicon>(i: int) -> Seq<u8> {
    T::alias(i as usize).0.spec_bytes()
}

/// The value that the alias at place `i` stands for.
pub open spec fn alias_value<T: Lexicon>(i: int) -> T {
    T::alias(i as usize).1
}

/// The place of the first alias, at or after `from`, that stands at the head
/// of `s`.
pub open spec fn first_alias<T: Lexicon>(s: Seq<u8>, from: int) -> Option<int>
    decreases T::alias_count() - from,
{
    if from < 0 || from >= T::alias_count() {
        None
    } else if starts_with_ci(s, alias_text::<T>(from)) {
        Some(from)
    } else {
        first_alias::<T>(s, from + 1)
    }
}

/// The lexicon rule: the value of the first alias that stands at the head of
/// `s`, and that alias's length.
pub open spec fn lexicon_rule<T: Lexicon>(s: Seq<u8>) -> Option<(int, T)> {
    match first_alias::<T>(s, 0) {
        Some(i) => Some((alias_text::<T>(i).len() as int, alias_value::<T>(i))),
        None => None,
    }
}

/// Consumes the first alias of `T` that stands at the head of `input`.
pub fn lookup<T: Lexicon>(input: &[u8]) -> (r: Option<(usize, T)>)
    ensures
        agrees(r, lexicon_rule::<T>(input@)),
        r matches Some((n, _)) ==> n <= input@.len(),
{
    let n = T::count();
    let mut i: usize = 0;
    while i < n
        invariant
            i <= n == T::alias_count(),
            first_alias::<T>(input@, 0) == first_alias::<T>(input@, i as int),
        decreases n - i,
    {
        let (alias, value) = T::entry(i);
        match literal_ci(input, alias.as_bytes()) {
            Some(len) => {
                return Some((len, value));
            },
            None => {},
        }
        i += 1;
    }
    None
}

/// The first alias is the one that matches with none before it matching.
pub proof fn lemma_first_alias_is<T: Lexicon>(s: Seq<u8>, i: int)
    requires
        0 <= i < T::alias_count(),
        starts_with_ci(s, alias_text::<T>(i)),
        forall|j: int| 0 <= j < i ==> !starts_with_ci(s, #[trigger] alias_text::<T>(j)),
    ensures
        first_alias::<T>(s, 0) == Some(i),
{
    lemma_first_alias_skips::<T>(s, 0, i);
}

/// Aliases that do not match are passed over.
pub proof fn lemma_first_alias_skips<T: Lexicon>(s: Seq<u8>, from: int, to: int)
    requires
        0 <= from <= to <= T::alias_count(),
        forall|j: int| from <= j < to ==> !starts_with_ci(s, #[trigger] alias_text::<T>(j)),
    ensures
        first_alias::<T>(s, from) == first_alias::<T>(s, to),
    decreases to - from,
{
    if from < to {
        lemma_first_alias_skips::<T>(s, from + 1, to);
    }
}

/// What the first alias is: in range, matching, and nothing before it
/// matches; and where there is none, nothing matches.
pub proof fn lemma_first_alias_found<T: Lexicon>(s: Seq<u8>, from: int)
    requires
        0 <= from,
    ensures
        match first_alias::<T>(s, from) {
            Some(i) => {
                &&& from <= i < T::alias_count()
                &&& starts_with_ci(s, alias_text::<T>(i))
                &&& forall|j: int| from <= j < i ==> !starts_with_ci(s, #[trigger] alias_text::<T>(j))
            },
            None => forall|j: int|
                from <= j < T::alias_count() ==> !starts_with_ci(s, #[trigger] alias_text::<T>(j)),
        },
    decreases T::alias_count() - from,
{
    if from < T::alias_count() && !starts_with_ci(s, alias_text::<T>(from)) {
        lemma_first_alias_found::<T>(s, from + 1);
    }
}

} // verus!
