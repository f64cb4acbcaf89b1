use vstd::prelude::*;
use crate::category::Category;
use crate::clock::{now_stamp, utc_stamp};
use crate::text::{decimal_digits, decimal_text};
use rand::Rng;

verus! {

/// One recorded expense. The amount is held in hundredths of the currency
/// unit; the two timestamps are `%Y-%m-%d %H:%M:%S` texts.
#[derive(Clone, Debug)]
pub struct Expense {
    pub id: String,
    pub description: String,
    pub amount: i64,
    pub category: Category,
    pub added_at: String,
    pub updated_at: String,
}

/// What an expense holds, as plain values.
pub struct ExpenseView {
    pub id: Seq<char>,
    pub description: Seq<char>,
    pub amount: int,
    pub category: Category,
    pub added_at: Seq<char>,
    pub updated_at: Seq<char>,
}

impl View for Expense {
    type V = ExpenseView;

    open spec fn view(&self) -> ExpenseView {
        ExpenseView {
            id: self.id@,
            description: self.description@,
            amount: self.amount as int,
            category: self.category,
            added_at: self.added_at@,
            updated_at: self.updated_at@,
        }
    }
}

/// A number drawn from `low` up to, not including, `high`.
///
/// Relies on rand's `thread_rng` and `Rng::gen_range`, which samples from the
/// half-open range it is given and panics only on an empty one.
#[verifier::external_body]
fn random_in(low: u64, high: u64) -> (r: u64)
    requires
        low < high,
    ensures
        low <= r < high,
{
    rand::thread_rng().gen_range(low..high)
}

/// A fresh identifier from 1000 up to, not including, 9999.
pub fn generate_random_id() -> (r: u64)
    ensures
        1000 <= r < 9999,
{
    random_in(1000, 9999)
}

impl Expense {
    /// Builds an expense from its identifier, its fields and the moment of its
    /// creation, which both timestamps take.
    pub fn with_stamp(id: String, description: String, amount: i64, category: Category, stamp: String) -> (r: Expense)
        ensures
            r@ == (ExpenseView {
                id: id@,
                description: description@,
                amount: amount as int,
                category,
                added_at: stamp@,
                updated_at: stamp@,
            }),
    {
        let updated_at = stamp.clone();
        Expense { id, description, amount, category, added_at: stamp, updated_at }
    }

    /// Creates an expense with a random identifier of four digits, both
    /// timestamps set to the current time; none where the clock reads a time
    /// that cannot be written as a timestamp.
    pub fn new(description: String, amount: i64, category: Category) -> (r: Option<Self>)
        ensures
            r matches Some(e) ==> {
                &&& e.description@ == description@
                &&& e.amount == amount
                &&& e.category == category
                &&& e.added_at@ == e.updated_at@
                &&& exists|n: nat| 1000 <= n < 9999 && e.id@ == decimal_digits(n)
                &&& exists|secs: int, nanos: int|
                    0 <= secs && 0 <= nanos < 1_000_000_000 && e.added_at@ == #[trigger] utc_stamp(secs, nanos)
            },
    {
        let n = generate_random_id();
        let id = decimal_text(n as u128);
        match now_stamp() {
            Some(stamp) => Some(Expense::with_stamp(id, description, amount, category, stamp)),
            None => None,
        }
    }

    /// A copy of this expense, field for field.
    pub fn duplicate(&self) -> (r: Expense)
        ensures
            r == *self,
    {
        Expense {
            id: self.id.clone(),
            description: self.description.clone(),
            amount: self.amount,
            category: self.category,
            added_at: self.added_at.clone(),
            updated_at: self.updated_at.clone(),
        }
    }
}

} // verus!
