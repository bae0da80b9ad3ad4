use rusty_money::{iso, Money};
use telegram_chatbot::category::Category;
use telegram_chatbot::spending::{
    SpentResponse, SpentTotalResponse, StateTotal, Transaction, STARTING_BUDGET,
};

fn usd(cents: i64) -> String {
    Money::from_minor(cents, iso::USD).to_string()
}

#[test]
fn dollars_are_written_as_the_money_crate_writes_them() {
    assert_eq!(usd(50_000), "$500.00");
    assert_eq!(usd(2478), "$24.78");
    assert_eq!(usd(0), "$0.00");
    assert_eq!(usd(-105), "-$1.05");
    assert_eq!(usd(123_456_789), "$1,234,567.89");
    // Five hundred dollars, however they are made, read the same.
    assert_eq!(Money::from_major(500, iso::USD).to_string(), usd(50_000));
}

#[test]
fn a_new_ledger() {
    let ledger = StateTotal::new();
    let summary = ledger.spent_total();
    assert_eq!(STARTING_BUDGET, 50_000);
    assert_eq!(summary.budget, "$500.00");
    assert_eq!(summary.total, "$0.00");
    assert!(summary.transactions.is_empty());
}

#[test]
fn an_entry_is_booked() {
    let mut ledger = StateTotal::new();
    let answer = ledger.spent(2478, Some(Category::Dining)).unwrap();
    assert_eq!(answer.total, "$475.22");
    assert_eq!(answer.total, usd(50_000 - 2478));
    let answer = ledger.spent(1037, None).unwrap();
    assert_eq!(answer.total, "$464.85");
    let summary = ledger.spent_total();
    assert_eq!(summary.budget, "$500.00");
    assert_eq!(summary.total, "$35.15");
    assert_eq!(summary.transactions.len(), 2);
    assert_eq!(summary.transactions[0].amount, "$24.78");
    assert_eq!(summary.transactions[0].category, "Dining");
    assert_eq!(summary.transactions[1].amount, "$10.37");
    assert_eq!(summary.transactions[1].category, "Other");
    let booked = summary.transactions[1]
        .time
        .parse::<chrono::DateTime<chrono::Local>>()
        .unwrap();
    assert!((chrono::Local::now() - booked).num_seconds().abs() < 60);
}

#[test]
fn every_category_is_booked_under_its_name() {
    for (category, name) in [
        (Category::Dining, "Dining"),
        (Category::Grocery, "Grocery"),
        (Category::Travel, "Travel"),
        (Category::Merchandise, "Merchandise"),
        (Category::Entertainment, "Entertainment"),
        (Category::Other, "Other"),
    ] {
        let mut ledger = StateTotal::new();
        ledger.spent(1, Some(category)).unwrap();
        assert_eq!(ledger.spent_total().transactions[0].category, name);
    }
}

#[test]
fn more_than_the_budget_can_be_spent() {
    let mut ledger = StateTotal::new();
    assert_eq!(ledger.spent(60_000, None).unwrap().total, "-$100.00");
    assert_eq!(ledger.spent(-70_000, None).unwrap().total, "$600.00");
    assert_eq!(ledger.spent_total().total, "-$100.00");
}

#[test]
fn an_entry_that_leaves_the_range_is_not_booked() {
    let mut ledger = StateTotal::new();
    assert!(ledger.spent(i64::MAX, None).is_some());
    assert!(ledger.spent(1, None).is_none());
    let summary = ledger.spent_total();
    assert_eq!(summary.total, usd(i64::MAX));
    assert_eq!(summary.transactions.len(), 1);

    // What is left would leave the range, though the sum does not.
    let mut ledger = StateTotal::new();
    assert!(ledger.spent(i64::MIN + 50_001, None).is_some());
    let mut ledger = StateTotal::new();
    assert!(ledger.spent(i64::MIN + 50_000, None).is_none());
    assert!(ledger.spent(i64::MIN, None).is_none());
    assert!(ledger.spent_total().transactions.is_empty());
    assert_eq!(ledger.spent_total().total, "$0.00");
}

#[test]
fn the_budget_is_set() {
    let mut ledger = StateTotal::new();
    ledger.spent(2478, None).unwrap();
    let summary = ledger.set_budget(500_000);
    assert_eq!(summary.budget, "$5,000.00");
    assert_eq!(summary.total, "$24.78");
    assert_eq!(summary.transactions.len(), 1);
    assert_eq!(ledger.spent(0, None).unwrap().total, "$4,975.22");
}

#[test]
fn the_ledger_is_reset() {
    let mut ledger = StateTotal::new();
    ledger.spent(2478, None).unwrap();
    ledger.set_budget(1);
    let summary = ledger.reset();
    assert_eq!(summary.budget, "$500.00");
    assert_eq!(summary.total, "$0.00");
    assert!(summary.transactions.is_empty());
    let summary = ledger.spent_total();
    assert_eq!(summary.budget, "$500.00");
    assert_eq!(summary.total, "$0.00");
    assert!(summary.transactions.is_empty());
}

#[test]
fn answers_as_shown() {
    assert_eq!(
        SpentResponse {
            total: "$1.00".into()
        }
        .to_string(),
        "total: $1.00"
    );
    let transactions = vec![
        Transaction {
            amount: "$24.78".into(),
            category: "Dining".into(),
            time: "noon".into(),
        },
        Transaction {
            amount: "$1.00".into(),
            category: "a \"b\"\n".into(),
            time: "\u{e9}".into(),
        },
    ];
    let by_hand = format!(
        "budget: {}\ntotal: {}\ntransactions: {:?}",
        "$500.00", "$25.78", transactions
    );
    let summary = SpentTotalResponse {
        budget: "$500.00".into(),
        total: "$25.78".into(),
        transactions,
    };
    assert_eq!(summary.to_string(), by_hand);
    assert_eq!(
        summary.to_string(),
        "budget: $500.00\ntotal: $25.78\ntransactions: [Transaction { amount: \"$24.78\", category: \"Dining\", time: \"noon\" }, Transaction { amount: \"$1.00\", category: \"a \\\"b\\\"\\n\", time: \"\u{e9}\" }]"
    );
    let empty = SpentTotalResponse {
        budget: String::new(),
        total: String::new(),
        transactions: Vec::new(),
    };
    assert_eq!(empty.to_string(), "budget: \ntotal: \ntransactions: []");
}
