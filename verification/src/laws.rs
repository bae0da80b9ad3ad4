//! What holds of the grammar as a whole.
use crate::category::{category_rule, Category};
use crate::direction::{direction_rule, Direction};
use crate::dispatch::classify_rule;
use crate::lexicon::{
    alias_text, alias_value, first_alias, lemma_first_alias_found, lemma_first_alias_is,
    lexicon_rule, Lexicon,
};
use crate::parser::{
    arrival_rule, budget_set_rule, category_suffix_rule, spending_entry_rule, spending_reset_rule,
    spending_total_rule, word_amount_rule, word_pair_rule,
};
use crate::request::StructuredRequest;
use crate::station::{station_rule, Station};
use crate::token::{
    blanks_from, decimal_digits, decimal_end, decimal_rule, decimal_scale, digits_from, fold,
    has_dot, is_blank, is_digit, lemma_blanks_from_bounds, lemma_digits_from_bounds, literal_rule,
    same_ignoring_case, space_rule, starts_with_ci, whole_end,
};
use vstd::prelude::*;
use vstd::string::*;

verus! {

/// Texts that differ only in case have the same runs of blanks.
proof fn lemma_blanks_ignore_case(s: Seq<u8>, t: Seq<u8>, k: int)
    requires
        same_ignoring_case(s, t),
        0 <= k,
    ensures
        blanks_from(s, k) == blanks_from(t, k),
    decreases s.len() - k,
{
    if k < s.len() {
        assert(fold(s[k]) == fold(t[k]));
        if is_blank(s[k]) {
            lemma_blanks_ignore_case(s, t, k + 1);
        }
    }
}

/// Texts that differ only in case have the same runs of digits.
proof fn lemma_digits_ignore_case(s: Seq<u8>, t: Seq<u8>, k: int)
    requires
        same_ignoring_case(s, t),
        0 <= k,
    ensures
        digits_from(s, k) == digits_from(t, k),
        forall|j: int| k <= j < digits_from(s, k) ==> s[j] == t[j],
    decreases s.len() - k,
{
    if k < s.len() {
        assert(fold(s[k]) == fold(t[k]));
        if is_digit(s[k]) {
            lemma_digits_ignore_case(s, t, k + 1);
        }
    }
}

/// What is left of two texts that differ only in case differs only in case.
proof fn lemma_skip_ignores_case(s: Seq<u8>, t: Seq<u8>, n: int)
    requires
        same_ignoring_case(s, t),
        0 <= n <= s.len(),
    ensures
        same_ignoring_case(s.skip(n), t.skip(n)),
{
    assert forall|k: int| 0 <= k < s.skip(n).len() implies fold(#[trigger] s.skip(n)[k]) == fold(
        t.skip(n)[k],
    ) by {
        assert(fold(s[k + n]) == fold(t[k + n]));
    }
    assert forall|k: int| 0 <= k < s.skip(n).len() implies fold(s.skip(n)[k]) == fold(
        #[trigger] t.skip(n)[k],
    ) by {
        assert(fold(s[k + n]) == fold(t[k + n]));
    }
}

/// A literal stands at the head of both of two texts that differ only in
/// case, or of neither.
proof fn lemma_literal_ignores_case(s: Seq<u8>, t: Seq<u8>, lit: Seq<u8>)
    requires
        same_ignoring_case(s, t),
    ensures
        literal_rule(s, lit) == literal_rule(t, lit),
{
    if starts_with_ci(s, lit) {
        assert forall|k: int| 0 <= k < lit.len() implies fold(t[k]) == fold(lit[k]) by {
            assert(fold(s[k]) == fold(t[k]));
        }
    }
    if starts_with_ci(t, lit) {
        assert forall|k: int| 0 <= k < lit.len() implies fold(s[k]) == fold(lit[k]) by {
            assert(fold(s[k]) == fold(t[k]));
        }
    }
}

/// The separator rule takes no notice of case.
proof fn lemma_space_ignores_case(s: Seq<u8>, t: Seq<u8>)
    requires
        same_ignoring_case(s, t),
    ensures
        space_rule(s) == space_rule(t),
{
    lemma_blanks_ignore_case(s, t, 0);
}

/// The decimal rule takes no notice of case.
proof fn lemma_decimal_ignores_case(s: Seq<u8>, t: Seq<u8>)
    requires
        same_ignoring_case(s, t),
    ensures
        decimal_rule(s) == decimal_rule(t),
{
    lemma_digits_ignore_case(s, t, 0);
    lemma_digits_from_bounds(s, 0);
    let n = whole_end(s);
    if n < s.len() {
        assert(fold(s[n]) == fold(t[n]));
    }
    assert(has_dot(s) == has_dot(t));
    if has_dot(s) {
        lemma_digits_ignore_case(s, t, n + 1);
        lemma_digits_from_bounds(s, n + 1);
    }
    assert(decimal_digits(s) =~= decimal_digits(t));
}

/// A lexicon takes no notice of case.
proof fn lemma_lexicon_ignores_case<T: Lexicon>(s: Seq<u8>, t: Seq<u8>, from: int)
    requires
        same_ignoring_case(s, t),
        0 <= from,
    ensures
        first_alias::<T>(s, from) == first_alias::<T>(t, from),
    decreases T::alias_count() - from,
{
    if from < T::alias_count() {
        lemma_literal_ignores_case(s, t, alias_text::<T>(from));
        lemma_lexicon_ignores_case::<T>(s, t, from + 1);
    }
}

/// A word, a separator and a second word: no notice of case.
proof fn lemma_word_pair_ignores_case(s: Seq<u8>, t: Seq<u8>, first: Seq<u8>, second: Seq<u8>)
    requires
        same_ignoring_case(s, t),
    ensures
        word_pair_rule(s, first, second) == word_pair_rule(t, first, second),
{
    lemma_literal_ignores_case(s, t, first);
    if let Some(n1) = literal_rule(s, first) {
        lemma_skip_ignores_case(s, t, n1);
        lemma_space_ignores_case(s.skip(n1), t.skip(n1));
        if let Some(n2) = space_rule(s.skip(n1)) {
            lemma_blanks_from_bounds(s.skip(n1), 0);
            lemma_skip_ignores_case(s, t, n1 + n2);
            lemma_literal_ignores_case(s.skip(n1 + n2), t.skip(n1 + n2), second);
        }
    }
}

/// A word, a separator and a number: no notice of case.
proof fn lemma_word_amount_ignores_case(s: Seq<u8>, t: Seq<u8>, word: Seq<u8>)
    requires
        same_ignoring_case(s, t),
    ensures
        word_amount_rule(s, word) == word_amount_rule(t, word),
{
    lemma_literal_ignores_case(s, t, word);
    if let Some(n1) = literal_rule(s, word) {
        lemma_skip_ignores_case(s, t, n1);
        lemma_space_ignores_case(s.skip(n1), t.skip(n1));
        if let Some(n2) = space_rule(s.skip(n1)) {
            lemma_blanks_from_bounds(s.skip(n1), 0);
            lemma_skip_ignores_case(s, t, n1 + n2);
            lemma_decimal_ignores_case(s.skip(n1 + n2), t.skip(n1 + n2));
        }
    }
}

/// Case insensitivity: two texts that differ only in the case of ASCII
/// letters get the same result from every rule, and the same request from
/// the classifier.
pub proof fn law_case_insensitive(s: Seq<u8>, t: Seq<u8>)
    requires
        same_ignoring_case(s, t),
    ensures
        direction_rule(s) == direction_rule(t),
        station_rule(s) == station_rule(t),
        category_rule(s) == category_rule(t),
        decimal_rule(s) == decimal_rule(t),
        space_rule(s) == space_rule(t),
        arrival_rule(s) == arrival_rule(t),
        spending_total_rule(s) == spending_total_rule(t),
        spending_reset_rule(s) == spending_reset_rule(t),
        spending_entry_rule(s) == spending_entry_rule(t),
        budget_set_rule(s) == budget_set_rule(t),
        classify_rule(s) == classify_rule(t),
{
    lemma_lexicon_ignores_case::<Direction>(s, t, 0);
    lemma_lexicon_ignores_case::<Station>(s, t, 0);
    lemma_lexicon_ignores_case::<Category>(s, t, 0);
    lemma_decimal_ignores_case(s, t);
    lemma_space_ignores_case(s, t);
    lemma_word_pair_ignores_case(s, t, "spent".spec_bytes(), "total".spec_bytes());
    lemma_word_pair_ignores_case(s, t, "spent".spec_bytes(), "reset".spec_bytes());
    lemma_word_amount_ignores_case(s, t, "budget".spec_bytes());
    lemma_word_amount_ignores_case(s, t, "spent".spec_bytes());
    assert(arrival_rule(s) == arrival_rule(t)) by {
        if let Some((n1, _)) = direction_rule(s) {
            lemma_first_alias_found::<Direction>(s, 0);
            lemma_skip_ignores_case(s, t, n1);
            lemma_space_ignores_case(s.skip(n1), t.skip(n1));
            if let Some(n2) = space_rule(s.skip(n1)) {
                lemma_blanks_from_bounds(s.skip(n1), 0);
                lemma_skip_ignores_case(s, t, n1 + n2);
                lemma_lexicon_ignores_case::<Station>(s.skip(n1 + n2), t.skip(n1 + n2), 0);
            }
        }
    }
    assert(spending_entry_rule(s) == spending_entry_rule(t)) by {
        if let Some((n1, _)) = word_amount_rule(s, "spent".spec_bytes()) {
            lemma_word_amount_within(s, "spent".spec_bytes());
            lemma_skip_ignores_case(s, t, n1);
            let s1 = s.skip(n1);
            let t1 = t.skip(n1);
            lemma_space_ignores_case(s1, t1);
            if let Some(n2) = space_rule(s1) {
                lemma_blanks_from_bounds(s1, 0);
                lemma_skip_ignores_case(s1, t1, n2);
                lemma_lexicon_ignores_case::<Category>(s1.skip(n2), t1.skip(n2), 0);
            }
        }
    }
}

/// A word, a separator and a number end within the text.
proof fn lemma_word_amount_within(s: Seq<u8>, word: Seq<u8>)
    ensures
        word_amount_rule(s, word) matches Some((n, _)) ==> 0 <= n <= s.len(),
{
    if let Some(n1) = literal_rule(s, word) {
        if let Some(n2) = space_rule(s.skip(n1)) {
            lemma_blanks_from_bounds(s.skip(n1), 0);
            let rest = s.skip(n1 + n2);
            lemma_digits_from_bounds(rest, 0);
            if has_dot(rest) {
                lemma_digits_from_bounds(rest, whole_end(rest) + 1);
            }
        }
    }
}

/// The byte of `s` at `k`, or zero past its end.
spec fn at(s: Seq<u8>, k: int) -> u8 {
    if 0 <= k < s.len() {
        s[k]
    } else {
        0
    }
}

/// Holds of every byte: a way to name one.
closed spec fn seen(b: u8) -> bool {
    true
}

/// Names the first bytes of `s`, as many as the longest alias has, so that
/// the solver compares texts byte by byte.
proof fn spell(s: Seq<u8>)
    ensures
        seen(at(s, 0)),
        seen(at(s, 1)),
        seen(at(s, 2)),
        seen(at(s, 3)),
        seen(at(s, 4)),
        seen(at(s, 5)),
        seen(at(s, 6)),
        seen(at(s, 7)),
        seen(at(s, 8)),
        seen(at(s, 9)),
        seen(at(s, 10)),
        seen(at(s, 11)),
        seen(at(s, 12)),
        seen(at(s, 13)),
        seen(at(s, 14)),
        seen(at(s, 15)),
        seen(at(s, 16)),
{
}

/// The direction words: four bytes each, and they differ in the first.
proof fn lemma_direction_words()
    ensures
        alias_text::<Direction>(0).len() == 4,
        alias_text::<Direction>(1).len() == 4,
        fold(alias_text::<Direction>(0)[0]) != fold(alias_text::<Direction>(1)[0]),
{
    broadcast use is_ascii_spec_bytes;

    reveal_strlit("west");
    assert(is_ascii("west"));
    reveal_strlit("east");
    assert(is_ascii("east"));
}

/// The station lexicon is unambiguous: no alias begins with one that is
/// tried before it, so each alias can be reached and is consumed whole. No
/// alias is empty or begins with a blank.
pub proof fn law_station_aliases_unambiguous(i: int)
    requires
        0 <= i < Station::alias_count(),
    ensures
        forall|j: int|
            0 <= j < i ==> !starts_with_ci(
                alias_text::<Station>(i),
                #[trigger] alias_text::<Station>(j),
            ),
        alias_text::<Station>(i).len() > 0,
        !is_blank(fold(alias_text::<Station>(i)[0])),
{
    broadcast use is_ascii_spec_bytes;

    reveal_strlit("lambert2");
    assert(is_ascii("lambert2"));
    reveal_strlit("lambert");
    assert(is_ascii("lambert"));
    reveal_strlit("hanley");
    assert(is_ascii("hanley"));
    reveal_strlit("umsl north");
    assert(is_ascii("umsl north"));
    reveal_strlit("umsl south");
    assert(is_ascii("umsl south"));
    reveal_strlit("umsl");
    assert(is_ascii("umsl"));
    reveal_strlit("rock road");
    assert(is_ascii("rock road"));
    reveal_strlit("wellston");
    assert(is_ascii("wellston"));
    reveal_strlit("delmar");
    assert(is_ascii("delmar"));
    reveal_strlit("shrewsbury");
    assert(is_ascii("shrewsbury"));
    reveal_strlit("sunnen");
    assert(is_ascii("sunnen"));
    reveal_strlit("maplewood");
    assert(is_ascii("maplewood"));
    reveal_strlit("brentwood");
    assert(is_ascii("brentwood"));
    reveal_strlit("richmond");
    assert(is_ascii("richmond"));
    reveal_strlit("clayton");
    assert(is_ascii("clayton"));
    reveal_strlit("forsyth");
    assert(is_ascii("forsyth"));
    reveal_strlit("ucity");
    assert(is_ascii("ucity"));
    reveal_strlit("skinker");
    assert(is_ascii("skinker"));
    reveal_strlit("forest park");
    assert(is_ascii("forest park"));
    reveal_strlit("cwe");
    assert(is_ascii("cwe"));
    reveal_strlit("central west end");
    assert(is_ascii("central west end"));
    reveal_strlit("cortex");
    assert(is_ascii("cortex"));
    reveal_strlit("grand");
    assert(is_ascii("grand"));
    reveal_strlit("union");
    assert(is_ascii("union"));
    reveal_strlit("civic");
    assert(is_ascii("civic"));
    reveal_strlit("stadium");
    assert(is_ascii("stadium"));
    reveal_strlit("8th pine");
    assert(is_ascii("8th pine"));
    reveal_strlit("8th and pine");
    assert(is_ascii("8th and pine"));
    reveal_strlit("convention");
    assert(is_ascii("convention"));
    reveal_strlit("lacledes landing");
    assert(is_ascii("lacledes landing"));
    reveal_strlit("lacledes");
    assert(is_ascii("lacledes"));
    reveal_strlit("riverfront");
    assert(is_ascii("riverfront"));
    reveal_strlit("5th missouri");
    assert(is_ascii("5th missouri"));
    reveal_strlit("fifth missouri");
    assert(is_ascii("fifth missouri"));
    reveal_strlit("emerson");
    assert(is_ascii("emerson"));
    reveal_strlit("jjk");
    assert(is_ascii("jjk"));
    reveal_strlit("jackie joiner");
    assert(is_ascii("jackie joiner"));
    reveal_strlit("washington");
    assert(is_ascii("washington"));
    reveal_strlit("fvh");
    assert(is_ascii("fvh"));
    reveal_strlit("memorial hospital");
    assert(is_ascii("memorial hospital"));
    reveal_strlit("memorial");
    assert(is_ascii("memorial"));
    reveal_strlit("swansea");
    assert(is_ascii("swansea"));
    reveal_strlit("belleville");
    assert(is_ascii("belleville"));
    reveal_strlit("college");
    assert(is_ascii("college"));
    reveal_strlit("shiloh scott");
    assert(is_ascii("shiloh scott"));
    reveal_strlit("shiloh");
    assert(is_ascii("shiloh"));
    spell(alias_text::<Station>(i));
}

/// A run of blanks that fills the head of `s` up to `n` ends at `n`.
proof fn lemma_blanks_end(s: Seq<u8>, k: int, n: int)
    requires
        0 <= k <= n <= s.len(),
        forall|j: int| 0 <= j < n ==> is_blank(#[trigger] s[j]),
        n < s.len() ==> !is_blank(s[n]),
    ensures
        blanks_from(s, k) == n,
    decreases n - k,
{
    if k < n {
        lemma_blanks_end(s, k + 1, n);
    }
}

/// Round trip, in any case and with any separator: a direction word, one or
/// more blanks and an alias of a station, each in whatever case, and nothing
/// after them, are read back as that direction and that station, and the
/// whole text is consumed.
pub proof fn law_alias_round_trip_any_case(
    d: int,
    i: int,
    word: Seq<u8>,
    gap: Seq<u8>,
    name: Seq<u8>,
)
    requires
        0 <= d < Direction::alias_count(),
        0 <= i < Station::alias_count(),
        same_ignoring_case(word, alias_text::<Direction>(d)),
        gap.len() > 0,
        forall|k: int| 0 <= k < gap.len() ==> is_blank(#[trigger] gap[k]),
        same_ignoring_case(name, alias_text::<Station>(i)),
    ensures
        arrival_rule(word + gap + name) == Some(
            (
                (word + gap + name).len() as int,
                (alias_value::<Direction>(d), alias_value::<Station>(i)),
            ),
        ),
{
    let text = word + gap + name;
    lemma_direction_words();
    law_station_aliases_unambiguous(i);
    assert(first_alias::<Direction>(text, 0) == Some(d)) by {
        assert(text[0] == word[0]);
        assert(fold(word[0]) == fold(alias_text::<Direction>(d)[0]));
        if d == 1 {
            assert(!starts_with_ci(text, alias_text::<Direction>(0)));
        }
        assert forall|k: int| 0 <= k < 4 implies fold(#[trigger] text[k]) == fold(
            alias_text::<Direction>(d)[k],
        ) by {
            assert(text[k] == word[k]);
        }
        lemma_first_alias_is::<Direction>(text, d);
    }
    let after_word = text.skip(4);
    assert(after_word =~= gap + name);
    assert(space_rule(after_word) == Some(gap.len() as int)) by {
        assert(fold(name[0]) == fold(alias_text::<Station>(i)[0]));
        assert forall|j: int| 0 <= j < gap.len() implies is_blank(#[trigger] after_word[j]) by {
            assert(after_word[j] == gap[j]);
        }
        assert(after_word[gap.len() as int] == name[0]);
        lemma_blanks_end(after_word, 0, gap.len() as int);
    }
    let after_gap = text.skip(4 + gap.len() as int);
    assert(after_gap =~= name);
    assert(first_alias::<Station>(name, 0) == Some(i)) by {
        assert forall|j: int| 0 <= j < i implies !starts_with_ci(
            name,
            #[trigger] alias_text::<Station>(j),
        ) by {
            let earlier = alias_text::<Station>(j);
            if starts_with_ci(name, earlier) {
                assert forall|k: int| 0 <= k < earlier.len() implies fold(
                    #[trigger] alias_text::<Station>(i)[k],
                ) == fold(earlier[k]) by {
                    assert(fold(name[k]) == fold(earlier[k]));
                }
                assert(starts_with_ci(alias_text::<Station>(i), earlier));
            }
        }
        lemma_first_alias_is::<Station>(name, i);
    }
}

/// Round trip: for every direction and every alias of every station, the
/// direction's word, a space and the alias are read back as that direction
/// and that station.
pub proof fn law_alias_round_trip(d: int, i: int)
    requires
        0 <= d < Direction::alias_count(),
        0 <= i < Station::alias_count(),
    ensures
        arrival_rule(alias_text::<Direction>(d) + seq![0x20u8] + alias_text::<Station>(i))
            matches Some((_, found)) && found == (
            alias_value::<Direction>(d),
            alias_value::<Station>(i),
        ),
{
    law_alias_round_trip_any_case(
        d,
        i,
        alias_text::<Direction>(d),
        seq![0x20u8],
        alias_text::<Station>(i),
    );
}

/// The command words: their lengths and first bytes.
proof fn lemma_command_words()
    ensures
        "spent".spec_bytes().len() == 5,
        "budget".spec_bytes().len() == 6,
        "total".spec_bytes().len() == 5,
        "reset".spec_bytes().len() == 5,
        "spent".spec_bytes()[0] == 0x73,
        "budget".spec_bytes()[0] == 0x62,
        "total".spec_bytes()[0] == 0x74,
        "reset".spec_bytes()[0] == 0x72,
        alias_text::<Direction>(0)[0] == 0x77,
        alias_text::<Direction>(1)[0] == 0x65,
{
    broadcast use is_ascii_spec_bytes;

    reveal_strlit("spent");
    assert(is_ascii("spent"));
    reveal_strlit("budget");
    assert(is_ascii("budget"));
    reveal_strlit("total");
    assert(is_ascii("total"));
    reveal_strlit("reset");
    assert(is_ascii("reset"));
    reveal_strlit("west");
    assert(is_ascii("west"));
    reveal_strlit("east");
    assert(is_ascii("east"));
}

/// Separator requirement: a rule of two parts matches only where a blank
/// follows the first word. `westcortex` is no arrival query.
pub proof fn law_separator_required(s: Seq<u8>)
    ensures
        arrival_rule(s) is Some ==> s.len() > 4 && is_blank(s[4]),
        spending_total_rule(s) is Some ==> s.len() > 5 && is_blank(s[5]),
        spending_reset_rule(s) is Some ==> s.len() > 5 && is_blank(s[5]),
        spending_entry_rule(s) is Some ==> s.len() > 5 && is_blank(s[5]),
        budget_set_rule(s) is Some ==> s.len() > 6 && is_blank(s[6]),
{
    lemma_command_words();
    lemma_direction_words();
    if arrival_rule(s) is Some {
        lemma_first_alias_found::<Direction>(s, 0);
        lemma_head_is_blank(s.skip(4));
    }
    if literal_rule(s, "spent".spec_bytes()) is Some {
        lemma_head_is_blank(s.skip(5));
    }
    if literal_rule(s, "budget".spec_bytes()) is Some {
        lemma_head_is_blank(s.skip(6));
    }
}

/// Where the separator rule matches, a blank leads.
proof fn lemma_head_is_blank(s: Seq<u8>)
    ensures
        space_rule(s) is Some ==> s.len() > 0 && is_blank(s[0]),
{
}

/// Where the decimal rule matches, a digit leads.
proof fn lemma_head_is_digit(s: Seq<u8>)
    ensures
        decimal_rule(s) is Some ==> s.len() > 0 && is_digit(s[0]),
{
}

/// No two rules match the same text, so the order in which the classifier
/// tries them never decides: a text is classified by the one rule that
/// matches it. `spent total` is a summary query and never a spending entry.
pub proof fn law_rules_exclusive(s: Seq<u8>)
    ensures
        spending_total_rule(s) is Some ==> spending_reset_rule(s) is None && arrival_rule(s) is None
            && spending_entry_rule(s) is None && budget_set_rule(s) is None,
        spending_reset_rule(s) is Some ==> arrival_rule(s) is None && spending_entry_rule(s) is None
            && budget_set_rule(s) is None,
        arrival_rule(s) is Some ==> spending_entry_rule(s) is None && budget_set_rule(s) is None,
        spending_entry_rule(s) is Some ==> budget_set_rule(s) is None,
        spending_total_rule(s) is Some <==> classify_rule(s) == StructuredRequest::SpendingTotalQuery,
        spending_reset_rule(s) is Some <==> classify_rule(s) == StructuredRequest::SpendingResetQuery,
        arrival_rule(s) is Some <==> classify_rule(s) is NextArrivalQuery,
        spending_entry_rule(s) is Some <==> classify_rule(s) is SpendingEntry,
        budget_set_rule(s) is Some <==> classify_rule(s) is BudgetSet,
{
    lemma_command_words();
    lemma_direction_words();
    lemma_first_alias_found::<Direction>(s, 0);
    let spent = "spent".spec_bytes();
    if s.len() > 0 {
        // The first byte tells arrival, budget and the three `spent` rules apart.
        assert(seen(s[0]));
    }
    if let Some(n1) = literal_rule(s, spent) {
        if let Some(n2) = space_rule(s.skip(n1)) {
            // After `spent` and the separator stands `total`, `reset` or a digit.
            let rest = s.skip(n1 + n2);
            lemma_head_is_digit(rest);
            if rest.len() > 0 {
                assert(seen(rest[0]));
            }
        }
    }
}

/// The shape of a decimal. The rule fails unless a digit leads, so a
/// leading dot or sign is refused. Where it matches, it has consumed one or
/// more digits and then, if a dot followed them, that dot and every digit
/// behind it, which may be none: a trailing dot is taken. It stops before a
/// second dot, and never before a digit.
pub proof fn law_decimal_shape(s: Seq<u8>)
    requires
        s.len() <= usize::MAX,
    ensures
        (s.len() == 0 || !is_digit(s[0])) ==> decimal_rule(s) is None,
        decimal_rule(s) matches Some((n, amount)) ==> {
            let w = whole_end(s);
            &&& 0 < w <= n <= s.len()
            &&& forall|k: int| 0 <= k < w ==> is_digit(#[trigger] s[k])
            &&& n == w || (s[w] == 0x2e && forall|k: int| w < k < n ==> is_digit(#[trigger] s[k]))
            &&& amount.scale == (if n == w {
                0
            } else {
                n - w - 1
            })
            &&& n < s.len() ==> !is_digit(s[n])
            &&& n < s.len() && s[n] == 0x2e ==> n > w
        },
{
    lemma_digits_from_bounds(s, 0);
    if has_dot(s) {
        lemma_digits_from_bounds(s, whole_end(s) + 1);
    }
}

/// The place of the first alias of a station.
pub open spec fn first_alias_of(station: Station) -> int {
    match station {
        Station::LambertT1 => 1,
        Station::LambertT2 => 0,
        Station::NorthHanley => 2,
        Station::UMSLNorth => 3,
        Station::UMSLSouth => 4,
        Station::RockRoad => 6,
        Station::Wellston => 7,
        Station::DelmarLoop => 8,
        Station::Shrewsbury => 9,
        Station::Sunnen => 10,
        Station::MaplewoodManchester => 11,
        Station::Brentwood => 12,
        Station::RichmondHeights => 13,
        Station::Clayton => 14,
        Station::Forsyth => 15,
        Station::UCity => 16,
        Station::Skinker => 17,
        Station::ForestPark => 18,
        Station::CWE => 19,
        Station::Cortex => 21,
        Station::Grand => 22,
        Station::Union => 23,
        Station::CivicCenter => 24,
        Station::Stadium => 25,
        Station::EighthPine => 26,
        Station::ConventionCenter => 28,
        Station::LacledesLanding => 29,
        Station::EastRiverfront => 31,
        Station::FifthMissouri => 32,
        Station::EmersonPark => 34,
        Station::JJK => 35,
        Station::Washington => 37,
        Station::FairviewHeights => 38,
        Station::MemorialHospital => 39,
        Station::Swansea => 41,
        Station::Belleville => 42,
        Station::College => 43,
        Station::ShilohScott => 44,
    }
}

/// The place of the second alias of a station that has two.
pub open spec fn second_alias_of(station: Station) -> Option<int> {
    match station {
        Station::UMSLNorth => Some(5),
        Station::CWE => Some(20),
        Station::EighthPine => Some(27),
        Station::LacledesLanding => Some(30),
        Station::FifthMissouri => Some(33),
        Station::JJK => Some(36),
        Station::MemorialHospital => Some(40),
        Station::ShilohScott => Some(45),
        _ => None,
    }
}

/// Every station can be named: it has one alias or two, at the places
/// that `first_alias_of` and `second_alias_of` give, and no other.
pub proof fn law_every_station_has_an_alias(station: Station)
    ensures
        0 <= first_alias_of(station) < Station::alias_count(),
        forall|i: int|
            0 <= i < Station::alias_count() ==> (#[trigger] alias_value::<Station>(i) == station
                <==> i == first_alias_of(station) || Some(i) == second_alias_of(station)),
{
}

/// Every category and every direction can be named, by one alias each.
pub proof fn law_every_category_and_direction_has_an_alias(category: Category, direction: Direction)
    ensures
        exists|i: int|
            0 <= i < Category::alias_count() && #[trigger] alias_value::<Category>(i) == category
                && forall|j: int|
                0 <= j < Category::alias_count() && #[trigger] alias_value::<Category>(j)
                    == category ==> j == i,
        exists|i: int|
            0 <= i < Direction::alias_count() && #[trigger] alias_value::<Direction>(i) == direction
                && forall|j: int|
                0 <= j < Direction::alias_count() && #[trigger] alias_value::<Direction>(j)
                    == direction ==> j == i,
{
    let c: int = match category {
        Category::Dining => 0,
        Category::Grocery => 1,
        Category::Merchandise => 2,
        Category::Travel => 3,
        Category::Entertainment => 4,
        Category::Other => 5,
    };
    assert(alias_value::<Category>(c) == category);
    let d: int = match direction {
        Direction::West => 0,
        Direction::East => 1,
    };
    assert(alias_value::<Direction>(d) == direction);
}

/// The category lexicon is unambiguous: no name begins with one that is
/// tried before it. No name is empty or begins with a blank.
pub proof fn law_category_aliases_unambiguous(i: int)
    requires
        0 <= i < Category::alias_count(),
    ensures
        forall|j: int|
            0 <= j < i ==> !starts_with_ci(
                alias_text::<Category>(i),
                #[trigger] alias_text::<Category>(j),
            ),
        alias_text::<Category>(i).len() > 0,
        !is_blank(fold(alias_text::<Category>(i)[0])),
{
    broadcast use is_ascii_spec_bytes;

    reveal_strlit("dining");
    assert(is_ascii("dining"));
    reveal_strlit("grocery");
    assert(is_ascii("grocery"));
    reveal_strlit("merchandise");
    assert(is_ascii("merchandise"));
    reveal_strlit("travel");
    assert(is_ascii("travel"));
    reveal_strlit("entertainment");
    assert(is_ascii("entertainment"));
    reveal_strlit("other");
    assert(is_ascii("other"));
    spell(alias_text::<Category>(i));
}

/// Round trip of a category: one or more blanks and the name of a
/// category, in whatever case, and nothing after it, are read back as that
/// category, and the whole text is consumed.
pub proof fn law_category_round_trip(i: int, gap: Seq<u8>, name: Seq<u8>)
    requires
        0 <= i < Category::alias_count(),
        gap.len() > 0,
        forall|k: int| 0 <= k < gap.len() ==> is_blank(#[trigger] gap[k]),
        same_ignoring_case(name, alias_text::<Category>(i)),
    ensures
        category_suffix_rule(gap + name) == Some(
            ((gap + name).len() as int, alias_value::<Category>(i)),
        ),
{
    let text = gap + name;
    law_category_aliases_unambiguous(i);
    assert(space_rule(text) == Some(gap.len() as int)) by {
        assert(fold(name[0]) == fold(alias_text::<Category>(i)[0]));
        assert forall|j: int| 0 <= j < gap.len() implies is_blank(#[trigger] text[j]) by {
            assert(text[j] == gap[j]);
        }
        assert(text[gap.len() as int] == name[0]);
        lemma_blanks_end(text, 0, gap.len() as int);
    }
    assert(text.skip(gap.len() as int) =~= name);
    assert(first_alias::<Category>(name, 0) == Some(i)) by {
        assert forall|j: int| 0 <= j < i implies !starts_with_ci(
            name,
            #[trigger] alias_text::<Category>(j),
        ) by {
            let earlier = alias_text::<Category>(j);
            if starts_with_ci(name, earlier) {
                assert forall|k: int| 0 <= k < earlier.len() implies fold(
                    #[trigger] alias_text::<Category>(i)[k],
                ) == fold(earlier[k]) by {
                    assert(fold(name[k]) == fold(earlier[k]));
                }
                assert(starts_with_ci(alias_text::<Category>(i), earlier));
            }
        }
        lemma_first_alias_is::<Category>(name, i);
    }
}

} // verus!
