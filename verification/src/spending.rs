//! The spending ledger: a budget, what has been spent of it, and the
//! entries that were booked. Money is counted in cents.
use crate::category::Category;
use vstd::prelude::*;
use vstd::string::*;

verus! {

/// What a booked entry holds.
pub ghost struct TransactionView {
    pub amount: Seq<char>,
    pub category: Seq<char>,
    pub time: Seq<char>,
}

/// A booked entry, as it is shown: the amount, the category's name and the
/// time of booking.
#[derive(Debug)]
pub struct Transaction {
    pub amount: String,
    pub category: String,
    pub time: String,
}

impl View for Transaction {
    type V = TransactionView;

    open spec fn view(&self) -> TransactionView {
        TransactionView { amount: self.amount@, category: self.category@, time: self.time@ }
    }
}

impl Clone for Transaction {
    fn clone(&self) -> (r: Self)
        ensures
            r@ == self@,
    {
        Transaction {
            amount: self.amount.clone(),
            category: self.category.clone(),
            time: self.time.clone(),
        }
    }
}

/// What each of the entries holds.
pub open spec fn entries_of(transactions: Seq<Transaction>) -> Seq<TransactionView> {
    Seq::new(transactions.len(), |i: int| transactions[i]@)
}

/// What is left of the budget after an entry.
pub struct SpentResponse {
    pub total: String,
}

impl SpentResponse {
    /// The answer as shown to a reader.
    pub fn to_string(&self) -> (r: String)
        ensures
            r@ == "total: "@ + self.total@,
    {
        let mut out = "total: ".to_owned();
        out.append(self.total.as_str());
        out
    }
}

/// The budget, what has been spent, and the entries.
pub struct SpentTotalResponse {
    pub budget: String,
    pub total: String,
    pub transactions: Vec<Transaction>,
}

/// What the `Debug` of std writes for a list of entries.
pub uninterp spec fn debug_listing(transactions: Seq<TransactionView>) -> Seq<char>;

/// The `Debug` of a vector of entries, through `format!`: the entries
/// between square brackets, each with its three fields by name and their
/// texts between quotes, escaped as std escapes them.
#[verifier::external_body]
fn debug_text(transactions: &Vec<Transaction>) -> (r: String)
    ensures
        r@ == debug_listing(entries_of(transactions@)),
{
    format!("{:?}", transactions)
}

impl SpentTotalResponse {
    /// The summary as shown to a reader.
    pub open spec fn display_text(self) -> Seq<char> {
        "budget: "@ + self.budget@ + "\ntotal: "@ + self.total@ + "\ntransactions: "@
            + debug_listing(entries_of(self.transactions@))
    }

    /// The summary as shown to a reader.
    pub fn to_string(&self) -> (r: String)
        ensures
            r@ == self.display_text(),
    {
        let mut out = "budget: ".to_owned();
        out.append(self.budget.as_str());
        out.append("\ntotal: ");
        out.append(self.total.as_str());
        out.append("\ntransactions: ");
        out.append(debug_text(&self.transactions).as_str());
        out
    }
}

/// What `Money::from_minor` of rusty_money, for US dollars, writes by its
/// `Display` for a number of cents.
pub uninterp spec fn usd_display(cents: i64) -> Seq<char>;

/// `Money::from_minor` of the rusty_money crate with `iso::USD`, written
/// out by the `Display` of `Money`: an amount of cents as dollars.
#[verifier::external_body]
fn usd_text(cents: i64) -> (r: String)
    ensures
        r@ == usd_display(cents),
{
    rusty_money::Money::from_minor(cents, rusty_money::iso::USD).to_string()
}

/// `Local::now` of chrono, written out by its `Display`: the time of the
/// call in the time zone of this machine.
#[verifier::external_body]
fn local_now_text() -> String {
    chrono::Local::now().to_string()
}

/// The budget that a new or a reset ledger has: five hundred dollars.
pub const STARTING_BUDGET: i64 = 50_000;

/// The ledger: the budget and what has been spent, in cents, and the
/// entries in the order of their booking.
pub struct StateTotal {
    budget: i64,
    total: i64,
    transactions: Vec<Transaction>,
}

/// Copies of the entries.
fn copy_entries(transactions: &Vec<Transaction>) -> (r: Vec<Transaction>)
    ensures
        entries_of(r@) == entries_of(transactions@),
{
    let mut out: Vec<Transaction> = Vec::new();
    let mut i: usize = 0;
    while i < transactions.len()
        invariant
            i <= transactions.len(),
            out@.len() == i,
            forall|j: int| 0 <= j < i ==> out@[j]@ == transactions@[j]@,
        decreases transactions.len() - i,
    {
        out.push(transactions[i].clone());
        i += 1;
    }
    assert(entries_of(out@) =~= entries_of(transactions@));
    out
}

impl StateTotal {
    /// The budget, in cents.
    pub closed spec fn budget(&self) -> i64 {
        self.budget
    }

    /// What has been spent, in cents.
    pub closed spec fn total(&self) -> i64 {
        self.total
    }

    /// The entries, in the order of their booking.
    pub closed spec fn transactions(&self) -> Seq<TransactionView> {
        entries_of(self.transactions@)
    }

    /// The summary of a ledger: its budget and what has been spent, in
    /// dollars, and its entries.
    pub open spec fn is_summary_of(response: SpentTotalResponse, ledger: StateTotal) -> bool {
        &&& response.budget@ == usd_display(ledger.budget())
        &&& response.total@ == usd_display(ledger.total())
        &&& entries_of(response.transactions@) == ledger.transactions()
    }

    /// A ledger with the starting budget, nothing spent and no entry.
    pub fn new() -> (r: Self)
        ensures
            r.budget() == STARTING_BUDGET,
            r.total() == 0,
            r.transactions().len() == 0,
    {
        StateTotal { budget: STARTING_BUDGET, total: 0, transactions: Vec::new() }
    }

    /// Whether an entry of `cents` can be booked: what has been spent with
    /// it, and what is left of the budget after it, both stay within `i64`.
    pub open spec fn can_spend(&self, cents: i64) -> bool {
        &&& i64::MIN <= self.total() + cents <= i64::MAX
        &&& i64::MIN <= self.budget() - (self.total() + cents) <= i64::MAX
    }

    /// Books an entry of `cents` and answers with what is left of the
    /// budget. An entry without a category is booked as `Other`. Where the
    /// sums would leave `i64` nothing is booked, and the answer is `None`.
    pub fn spent(&mut self, cents: i64, category: Option<Category>) -> (r: Option<SpentResponse>)
        ensures
            final(self).budget() == old(self).budget(),
            !old(self).can_spend(cents) ==> r is None && final(self).total() == old(self).total()
                && final(self).transactions() == old(self).transactions(),
            old(self).can_spend(cents) ==> {
                &&& r matches Some(response)
                &&& response.total@ == usd_display(
                    (final(self).budget() - final(self).total()) as i64,
                )
                &&& final(self).total() == old(self).total() + cents
                &&& final(self).transactions().len() == old(self).transactions().len() + 1
                &&& final(self).transactions().drop_last() == old(self).transactions()
                &&& final(self).transactions().last().amount == usd_display(cents)
                &&& final(self).transactions().last().category == (match category {
                    Some(c) => c,
                    None => Category::Other,
                }).display_name()
            },
    {
        let fits = if cents >= 0 {
            self.total <= i64::MAX - cents
        } else {
            self.total >= i64::MIN - cents
        };
        if !fits {
            return None;
        }
        let total = self.total + cents;
        let left_fits = if total >= 0 {
            self.budget >= i64::MIN + total
        } else {
            self.budget <= i64::MAX + total
        };
        if !left_fits {
            return None;
        }
        let name = match category {
            Some(c) => c.to_string(),
            None => Category::Other.to_string(),
        };
        let ghost before = self.transactions@;
        self.total = total;
        self.transactions.push(
            Transaction { amount: usd_text(cents), category: name, time: local_now_text() },
        );
        proof {
            assert(entries_of(self.transactions@).drop_last() =~= entries_of(before));
        }
        Some(SpentResponse { total: usd_text(self.budget - self.total) })
    }

    /// The summary of the ledger.
    pub fn spent_total(&self) -> (r: SpentTotalResponse)
        ensures
            Self::is_summary_of(r, *self),
    {
        SpentTotalResponse {
            budget: usd_text(self.budget),
            total: usd_text(self.total),
            transactions: copy_entries(&self.transactions),
        }
    }

    /// Puts the ledger back to the starting budget, nothing spent and no
    /// entry, and answers with its summary.
    pub fn reset(&mut self) -> (r: SpentTotalResponse)
        ensures
            final(self).budget() == STARTING_BUDGET,
            final(self).total() == 0,
            final(self).transactions().len() == 0,
            Self::is_summary_of(r, *final(self)),
    {
        self.budget = STARTING_BUDGET;
        self.total = 0;
        self.transactions = Vec::new();
        SpentTotalResponse {
            budget: usd_text(self.budget),
            total: usd_text(self.total),
            transactions: Vec::new(),
        }
    }

    /// Sets the budget to `cents` and answers with the summary.
    pub fn set_budget(&mut self, cents: i64) -> (r: SpentTotalResponse)
        ensures
            final(self).budget() == cents,
            final(self).total() == old(self).total(),
            final(self).transactions() == old(self).transactions(),
            Self::is_summary_of(r, *final(self)),
    {
        self.budget = cents;
        SpentTotalResponse {
            budget: usd_text(self.budget),
            total: usd_text(self.total),
            transactions: copy_entries(&self.transactions),
        }
    }
}

} // verus!
