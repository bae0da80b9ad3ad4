use telegram_chatbot::category::{parse_category, Category};
use telegram_chatbot::direction::Direction;
use telegram_chatbot::parser::{
    is_spending_reset_request, is_spending_total_request, parse_amount_and_category,
    parse_budget_and_amount, parse_spending_reset_request, parse_spending_total_request,
    parse_station_and_direction,
};
use telegram_chatbot::station::{parse_station, Station};
use telegram_chatbot::token::{parse_price, ParsedAmount};

fn as_f32(amount: ParsedAmount) -> f32 {
    (amount.mantissa as f64 / 10f64.powi(amount.scale as i32)) as f32
}

#[test]
fn test_parse_category() {
    assert_eq!(parse_category("DINING".as_bytes()).unwrap().1, Category::Dining)
}

#[test]
fn test_parse_station() {
    assert_eq!(parse_station("cwe".as_bytes()).unwrap().1, Station::CWE)
}

#[test]
fn test_parse_price() {
    assert_eq!(as_f32(parse_price("1.57".as_bytes()).unwrap().1), 1.57f32);
}

#[test]
fn test_parse_station_and_direction() {
    assert_eq!(
        parse_station_and_direction("west cortex".as_bytes()).unwrap().1,
        (Direction::West, Station::Cortex)
    );

    assert_eq!(parse_station_and_direction("east nowhere".as_bytes()), None);

    assert_eq!(
        parse_station_and_direction("east lambert2".as_bytes()).unwrap().1,
        (Direction::East, Station::LambertT2)
    );
}

#[test]
fn test_parse_budget_and_amount() {
    assert_eq!(
        as_f32(parse_budget_and_amount("budget 500".as_bytes()).unwrap().1),
        500f32
    )
}

fn entry(text: &str) -> (f32, Option<Category>) {
    let (amount, category) = parse_amount_and_category(text.as_bytes()).unwrap().1;
    (as_f32(amount), category)
}

#[test]
fn test_parse_amount_and_category() {
    assert_eq!(entry("spent 24.78 dining"), (24.78f32, Some(Category::Dining)));
    assert_eq!(entry("spent 24.78 grocery"), (24.78f32, Some(Category::Grocery)));
    assert_eq!(
        entry("spent 24.78 merchandise"),
        (24.78f32, Some(Category::Merchandise))
    );
    assert_eq!(entry("spent 24.78 travel"), (24.78f32, Some(Category::Travel)));
    assert_eq!(
        entry("spent 24.78 entertainment"),
        (24.78f32, Some(Category::Entertainment))
    );
    assert_eq!(entry("spent 24.78 other"), (24.78f32, Some(Category::Other)));
    assert_eq!(entry("spent 24.78"), (24.78f32, None));
}

#[test]
fn test_parse_spending_reset_request() {
    assert!(parse_spending_reset_request("spent reset".as_bytes()).is_some());
    assert!(parse_spending_reset_request("other string".as_bytes()).is_none());
    assert_eq!(is_spending_reset_request("spent reset".to_string()), true);
    assert_eq!(is_spending_reset_request("other string".to_string()), false);
}

#[test]
fn test_parse_spending_total_request() {
    assert!(parse_spending_total_request("spent total".as_bytes()).is_some());
    assert!(parse_spending_total_request("other string".as_bytes()).is_none());
    assert_eq!(is_spending_total_request("spent total".to_string()), true);
    assert_eq!(is_spending_total_request("other string".to_string()), false);
}
