use telegram_chatbot::category::Category;
use telegram_chatbot::direction::{parse_direction, Direction};
use telegram_chatbot::dispatch::{classify, dispatch};
use telegram_chatbot::lexicon::{lookup, Lexicon};
use telegram_chatbot::parser::{
    is_spending_reset_request, is_spending_total_request, parse_amount_and_category,
    parse_budget_and_amount, parse_budget_request, parse_metro_request, parse_spending_request,
    parse_spending_reset_request, parse_spending_total_request, parse_station_and_direction,
};
use telegram_chatbot::request::{NextArrivalRequest, SpentRequest, StructuredRequest};
use telegram_chatbot::station::{parse_station, Station};
use telegram_chatbot::token::ParsedAmount;

fn amount(mantissa: u64, scale: usize) -> ParsedAmount {
    ParsedAmount { mantissa, scale }
}

#[test]
fn every_alias_of_every_station_round_trips() {
    for d in 0..Direction::count() {
        let (word, direction) = Direction::entry(d);
        for i in 0..Station::count() {
            let (alias, station) = Station::entry(i);
            let text = format!("{} {}", word, alias);
            assert_eq!(
                parse_station_and_direction(text.as_bytes()),
                Some((text.len(), (direction, station))),
                "{}",
                text
            );
            assert_eq!(
                parse_metro_request(text),
                Some(NextArrivalRequest { station, direction })
            );
        }
    }
}

#[test]
fn every_alias_is_consumed_whole() {
    for i in 0..Station::count() {
        let (alias, station) = Station::entry(i);
        assert_eq!(parse_station(alias.as_bytes()), Some((alias.len(), station)));
    }
    for i in 0..Category::count() {
        let (alias, category) = Category::entry(i);
        assert_eq!(lookup::<Category>(alias.as_bytes()), Some((alias.len(), category)));
    }
}

#[test]
fn the_lexicons_have_their_sizes() {
    assert_eq!(Station::count(), 46);
    assert_eq!(Category::count(), 6);
    assert_eq!(Direction::count(), 2);
    assert_eq!(Direction::entry(0), ("west", Direction::West));
    assert_eq!(Direction::entry(1), ("east", Direction::East));
    assert_eq!(Station::entry(0), ("lambert2", Station::LambertT2));
    assert_eq!(Station::entry(45), ("shiloh", Station::ShilohScott));
}

#[test]
fn the_first_alias_wins_not_the_longest() {
    // `umsl` alone is the north station; with `south` behind it the earlier,
    // longer alias has matched already.
    assert_eq!(parse_station(b"umsl"), Some((4, Station::UMSLNorth)));
    assert_eq!(parse_station(b"umsl south"), Some((10, Station::UMSLSouth)));
    assert_eq!(parse_station(b"umsl west"), Some((4, Station::UMSLNorth)));
    assert_eq!(parse_station(b"lambert"), Some((7, Station::LambertT1)));
    assert_eq!(parse_station(b"lambert2"), Some((8, Station::LambertT2)));
    assert_eq!(parse_station(b"lambert 2"), Some((7, Station::LambertT1)));
}

#[test]
fn an_alias_that_begins_with_another_is_reached() {
    assert_eq!(parse_station(b"memorial"), Some((8, Station::MemorialHospital)));
    assert_eq!(
        parse_station(b"memorial hospital"),
        Some((17, Station::MemorialHospital))
    );
    assert_eq!(parse_station(b"lacledes"), Some((8, Station::LacledesLanding)));
    assert_eq!(
        parse_station(b"lacledes landing"),
        Some((16, Station::LacledesLanding))
    );
    assert_eq!(parse_station(b"shiloh"), Some((6, Station::ShilohScott)));
    assert_eq!(parse_station(b"shiloh scott"), Some((12, Station::ShilohScott)));
    assert_eq!(parse_station(b"5th missouri"), Some((12, Station::FifthMissouri)));
    assert_eq!(parse_station(b"fifth missouri"), Some((14, Station::FifthMissouri)));
}

#[test]
fn case_does_not_matter() {
    for text in ["west cortex", "WEST CORTEX", "West Cortex", "wEsT cOrTeX"] {
        assert_eq!(
            parse_metro_request(text.to_string()),
            Some(NextArrivalRequest {
                station: Station::Cortex,
                direction: Direction::West
            })
        );
    }
    for text in ["spent total", "SPENT TOTAL", "Spent Total", "sPeNt tOtAl"] {
        assert!(is_spending_total_request(text.to_string()));
        assert_eq!(dispatch(text), StructuredRequest::SpendingTotalQuery);
    }
    for text in ["spent reset", "SPENT RESET", "Spent Reset"] {
        assert!(is_spending_reset_request(text.to_string()));
        assert_eq!(dispatch(text), StructuredRequest::SpendingResetQuery);
    }
    for text in ["budget 12", "BUDGET 12", "BuDgEt 12"] {
        assert_eq!(
            parse_budget_request(text.to_string()),
            Some(SpentRequest {
                amount: amount(12, 0),
                category: None
            })
        );
    }
    for text in ["spent 3 TRAVEL", "SPENT 3 travel", "Spent 3 Travel"] {
        assert_eq!(
            parse_spending_request(text.to_string()),
            Some(SpentRequest {
                amount: amount(3, 0),
                category: Some(Category::Travel)
            })
        );
    }
}

#[test]
fn only_ascii_letters_fold() {
    // U+212A, the Kelvin sign, lower-cases to `k` in Unicode, not here.
    assert_eq!(parse_station("s\u{212a}inker".as_bytes()), None);
    assert_eq!(parse_station(b"skinker"), Some((7, Station::Skinker)));
    // `@` and `` ` `` stand 32 apart, as `A` and `a` do, and are not letters.
    assert_eq!(parse_direction(b"we`t"), None);
    assert_eq!(parse_direction(b"w%st"), None);
}

#[test]
fn a_separator_is_required() {
    assert_eq!(parse_station_and_direction(b"westcortex"), None);
    assert_eq!(parse_metro_request("westcortex".to_string()), None);
    assert_eq!(
        parse_station_and_direction(b"west cortex"),
        Some((11, (Direction::West, Station::Cortex)))
    );
    assert_eq!(parse_spending_total_request(b"spenttotal"), None);
    assert_eq!(parse_spending_reset_request(b"spentreset"), None);
    assert_eq!(parse_budget_and_amount(b"budget500"), None);
    assert_eq!(parse_amount_and_category(b"spent5"), None);
    assert_eq!(dispatch("westcortex"), StructuredRequest::NoMatch);
}

#[test]
fn a_separator_is_any_run_of_spaces_and_tabs() {
    assert_eq!(
        parse_station_and_direction(b"west \t  cortex"),
        Some((14, (Direction::West, Station::Cortex)))
    );
    assert_eq!(parse_spending_total_request(b"spent\ttotal"), Some(11));
    assert_eq!(parse_budget_and_amount(b"budget   7"), Some((10, amount(7, 0))));
    // A line feed is no blank.
    assert_eq!(parse_station_and_direction(b"west\ncortex"), None);
    assert_eq!(parse_station_and_direction("west\u{a0}cortex".as_bytes()), None);
}

#[test]
fn the_direction_comes_first() {
    assert_eq!(parse_station_and_direction(b"cortex west"), None);
    assert_eq!(dispatch("cortex west"), StructuredRequest::NoMatch);
}

#[test]
fn no_leading_blank_is_skipped() {
    assert_eq!(parse_station_and_direction(b" west cortex"), None);
    assert_eq!(dispatch(" spent total"), StructuredRequest::NoMatch);
}

#[test]
fn a_missing_category_is_left_missing() {
    assert_eq!(
        parse_amount_and_category(b"spent 24.78"),
        Some((11, (amount(2478, 2), None)))
    );
    assert_eq!(
        parse_spending_request("spent 24.78".to_string()),
        Some(SpentRequest {
            amount: amount(2478, 2),
            category: None
        })
    );
    assert_eq!(
        dispatch("spent 24.78"),
        StructuredRequest::SpendingEntry {
            amount: amount(2478, 2),
            category: None
        }
    );
}

#[test]
fn an_unknown_category_is_left_missing_and_unread() {
    assert_eq!(
        parse_amount_and_category(b"spent 24.78 lunch"),
        Some((11, (amount(2478, 2), None)))
    );
    assert_eq!(
        parse_amount_and_category(b"spent 24.78 "),
        Some((11, (amount(2478, 2), None)))
    );
}

#[test]
fn a_category_needs_a_separator_before_it() {
    assert_eq!(
        parse_amount_and_category(b"spent 24.78dining"),
        Some((11, (amount(2478, 2), None)))
    );
    assert_eq!(
        parse_amount_and_category(b"spent 24.78 \tdining"),
        Some((19, (amount(2478, 2), Some(Category::Dining))))
    );
}

#[test]
fn the_summary_wins_over_an_entry() {
    assert_eq!(dispatch("spent total"), StructuredRequest::SpendingTotalQuery);
    assert_eq!(parse_amount_and_category(b"spent total"), None);
    assert_eq!(parse_amount_and_category(b"spent reset"), None);
}

#[test]
fn each_text_is_matched_by_one_rule_at_most() {
    for text in [
        "spent total",
        "spent reset",
        "west cortex",
        "east jjk",
        "spent 1",
        "spent 1.5 other",
        "budget 90",
        "hello there",
        "",
        "spent",
        "budget",
    ] {
        let b = text.as_bytes();
        let hits = [
            parse_spending_total_request(b).is_some(),
            parse_spending_reset_request(b).is_some(),
            parse_station_and_direction(b).is_some(),
            parse_amount_and_category(b).is_some(),
            parse_budget_and_amount(b).is_some(),
        ];
        let n = hits.iter().filter(|h| **h).count();
        assert!(n <= 1, "{}", text);
        assert_eq!(n == 0, classify(b) == StructuredRequest::NoMatch, "{}", text);
    }
}

#[test]
fn end_to_end() {
    assert_eq!(
        dispatch("West Cortex"),
        StructuredRequest::NextArrivalQuery {
            direction: Direction::West,
            station: Station::Cortex
        }
    );
    assert_eq!(
        dispatch("spent 10.37 Grocery"),
        StructuredRequest::SpendingEntry {
            amount: amount(1037, 2),
            category: Some(Category::Grocery)
        }
    );
    assert_eq!(
        dispatch("Budget 5000"),
        StructuredRequest::BudgetSet {
            amount: amount(5000, 0)
        }
    );
    assert_eq!(dispatch("spent reset"), StructuredRequest::SpendingResetQuery);
    assert_eq!(dispatch("spent total"), StructuredRequest::SpendingTotalQuery);
    assert_eq!(dispatch("hello there"), StructuredRequest::NoMatch);
    assert_eq!(dispatch(""), StructuredRequest::NoMatch);
}

#[test]
fn what_follows_a_match_is_ignored() {
    assert_eq!(
        dispatch("budget 500 extra junk"),
        StructuredRequest::BudgetSet {
            amount: amount(500, 0)
        }
    );
    assert_eq!(parse_budget_and_amount(b"budget 500 extra junk"), Some((10, amount(500, 0))));
    assert_eq!(
        dispatch("east grand central"),
        StructuredRequest::NextArrivalQuery {
            direction: Direction::East,
            station: Station::Grand
        }
    );
    assert_eq!(dispatch("spent total please"), StructuredRequest::SpendingTotalQuery);
}

#[test]
fn the_public_questions_agree_with_the_classifier() {
    for text in ["West Cortex", "spent 10.37 Grocery", "Budget 5000", "spent reset", "nope"] {
        let by_rule = if is_spending_total_request(text.to_string()) {
            StructuredRequest::SpendingTotalQuery
        } else if is_spending_reset_request(text.to_string()) {
            StructuredRequest::SpendingResetQuery
        } else if let Some(r) = parse_metro_request(text.to_string()) {
            StructuredRequest::NextArrivalQuery {
                direction: r.direction,
                station: r.station,
            }
        } else if let Some(r) = parse_spending_request(text.to_string()) {
            StructuredRequest::SpendingEntry {
                amount: r.amount,
                category: r.category,
            }
        } else if let Some(r) = parse_budget_request(text.to_string()) {
            StructuredRequest::BudgetSet { amount: r.amount }
        } else {
            StructuredRequest::NoMatch
        };
        assert_eq!(dispatch(text), by_rule);
    }
}

#[test]
fn a_number_too_long_for_the_amount_is_no_match() {
    assert_eq!(
        parse_budget_and_amount(b"budget 18446744073709551615"),
        Some((27, amount(u64::MAX, 0)))
    );
    assert_eq!(parse_budget_and_amount(b"budget 18446744073709551616"), None);
    assert_eq!(dispatch("budget 18446744073709551616"), StructuredRequest::NoMatch);
    assert_eq!(
        dispatch("spent 99999999999999999999999999 dining"),
        StructuredRequest::NoMatch
    );
    assert_eq!(parse_budget_and_amount(b"budget 1844674407370955161.6"), None);
}

#[test]
fn names_shown_to_a_reader() {
    assert_eq!(Station::LambertT1.to_string(), "Lambert Terminal 1");
    assert_eq!(Station::CWE.to_string(), "Central West End");
    assert_eq!(Station::Shrewsbury.to_string(), "Shrewsberry");
    assert_eq!(Station::ShilohScott.to_string(), "Shiloh Scott");
    assert_eq!(Station::EighthPine.to_string(), "Eighth and Pine");
    assert_eq!(Direction::East.to_string(), "East");
    assert_eq!(Direction::West.to_string(), "West");
    assert_eq!(Category::Dining.to_string(), "Dining");
    assert_eq!(Category::Other.to_string(), "Other");
}

#[test]
fn every_station_has_one_alias_or_two() {
    let all = [
        Station::LambertT1,
        Station::LambertT2,
        Station::NorthHanley,
        Station::UMSLNorth,
        Station::UMSLSouth,
        Station::RockRoad,
        Station::Wellston,
        Station::DelmarLoop,
        Station::Shrewsbury,
        Station::Sunnen,
        Station::MaplewoodManchester,
        Station::Brentwood,
        Station::RichmondHeights,
        Station::Clayton,
        Station::Forsyth,
        Station::UCity,
        Station::Skinker,
        Station::ForestPark,
        Station::CWE,
        Station::Cortex,
        Station::Grand,
        Station::Union,
        Station::CivicCenter,
        Station::Stadium,
        Station::EighthPine,
        Station::ConventionCenter,
        Station::LacledesLanding,
        Station::EastRiverfront,
        Station::FifthMissouri,
        Station::EmersonPark,
        Station::JJK,
        Station::Washington,
        Station::FairviewHeights,
        Station::MemorialHospital,
        Station::Swansea,
        Station::Belleville,
        Station::College,
        Station::ShilohScott,
    ];
    assert_eq!(all.len(), 38);
    for station in all {
        let n = (0..Station::count())
            .filter(|i| Station::entry(*i).1 == station)
            .count();
        assert!(n == 1 || n == 2, "{:?}", station);
    }
    let two = (0..Station::count())
        .map(|i| Station::entry(i).1)
        .filter(|s| (0..Station::count()).filter(|i| Station::entry(*i).1 == *s).count() == 2)
        .count();
    assert_eq!(two, 16);
}

#[test]
fn every_category_round_trips() {
    for i in 0..Category::count() {
        let (alias, category) = Category::entry(i);
        for text in [
            format!("spent 5 {}", alias),
            format!("SPENT 5 \t{}", alias.to_uppercase()),
        ] {
            assert_eq!(
                parse_amount_and_category(text.as_bytes()),
                Some((text.len(), (amount(5, 0), Some(category)))),
                "{}",
                text
            );
        }
    }
}
