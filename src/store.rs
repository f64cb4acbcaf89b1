use vstd::prelude::*;
use crate::category::{category_of, map_category, same_text, Category};
use crate::text::decimal_digits;
use crate::clock::utc_stamp;
use crate::expense::{Expense, ExpenseView};

verus! {

/// True when no expense of `s` carries the identifier `id`.
pub open spec fn absent(s: Seq<Expense>, id: Seq<char>) -> bool {
    forall|j: int| 0 <= j < s.len() ==> s[j].id@ != id
}

/// True when `i` is the first position of `s` whose expense carries `id`.
pub open spec fn first_with_id(s: Seq<Expense>, id: Seq<char>, i: int) -> bool {
    &&& 0 <= i < s.len()
    &&& s[i].id@ == id
    &&& forall|j: int| 0 <= j < i ==> s[j].id@ != id
}

/// Finds the first expense with the given identifier.
pub fn search_expense_by_id(expenses: &[Expense], id: &str) -> (r: Option<usize>)
    ensures
        r matches Some(i) ==> first_with_id(expenses@, id@, i as int),
        r is None <==> absent(expenses@, id@),
{
    let target = String::from_str(id);
    let mut i: usize = 0;
    while i < expenses.len()
        invariant
            0 <= i <= expenses@.len(),
            target@ == id@,
            forall|j: int| 0 <= j < i ==> expenses@[j].id@ != id@,
        decreases expenses@.len() - i,
    {
        if expenses[i].id == target {
            return Some(i);
        }
        i = i + 1;
    }
    None
}

/// Removes the expense at `index` and hands it back.
pub fn delete_expense(index: usize, all_expenses: &mut Vec<Expense>) -> (r: Expense)
    requires
        index < old(all_expenses)@.len(),
    ensures
        r == old(all_expenses)@[index as int],
        final(all_expenses)@ == old(all_expenses)@.remove(index as int),
{
    all_expenses.remove(index)
}

/// Removes the first expense with the given identifier and hands it back;
/// where none has it, the store stays as it was.
pub fn delete_by_id(all_expenses: &mut Vec<Expense>, id: &str) -> (r: Option<Expense>)
    ensures
        r is None <==> absent(old(all_expenses)@, id@),
        r is None ==> final(all_expenses)@ == old(all_expenses)@,
        r matches Some(e) ==> exists|i: int|
            first_with_id(old(all_expenses)@, id@, i)
            && e == old(all_expenses)@[i]
            && final(all_expenses)@ == old(all_expenses)@.remove(i),
        r is Some ==> final(all_expenses)@.len() == old(all_expenses)@.len() - 1,
{
    match search_expense_by_id(all_expenses.as_slice(), id) {
        Some(i) => Some(delete_expense(i, all_expenses)),
        None => None,
    }
}

/// Records a new expense with the given identifier and creation moment, at
/// the end of the store, and hands back a copy of it.
pub fn add_with_stamp(
    all_expenses: &mut Vec<Expense>,
    id: String,
    description: String,
    amount: i64,
    category: &str,
    stamp: String,
) -> (r: Expense)
    ensures
        final(all_expenses)@ == old(all_expenses)@.push(r),
        r@ == (ExpenseView {
            id: id@,
            description: description@,
            amount: amount as int,
            category: category_of(category@),
            added_at: stamp@,
            updated_at: stamp@,
        }),
{
    let e = Expense::with_stamp(id, description, amount, map_category(category), stamp);
    all_expenses.push(e.duplicate());
    e
}

/// Records a new expense with a random identifier of four digits, stamped with
/// the current time, at the end of the store, and hands back a copy of it;
/// where the clock cannot stamp it, the store stays as it was.
pub fn add_expense(all_expenses: &mut Vec<Expense>, description: String, amount: i64, category: &str) -> (r: Option<Expense>)
    ensures
        r is None ==> final(all_expenses)@ == old(all_expenses)@,
        r matches Some(e) ==> {
            &&& final(all_expenses)@ == old(all_expenses)@.push(e)
            &&& e.description@ == description@
            &&& e.amount == amount
            &&& e.category == category_of(category@)
            &&& e.added_at@ == e.updated_at@
            &&& exists|n: nat| 1000 <= n < 9999 && e.id@ == decimal_digits(n)
            &&& exists|secs: int, nanos: int|
                0 <= secs && 0 <= nanos < 1_000_000_000 && e.added_at@ == #[trigger] utc_stamp(secs, nanos)
        },
{
    match Expense::new(description, amount, map_category(category)) {
        Some(e) => {
            all_expenses.push(e.duplicate());
            Some(e)
        },
        None => None,
    }
}

/// What a reply to the question whether to clear the store asks for.
#[derive(PartialEq, Eq, Structural, Clone, Copy, Debug)]
pub enum ClearChoice {
    /// `y` or `Y`: remove every expense.
    Clear,
    /// `n` or `N`: keep the store.
    Keep,
    /// Any other reply: keep the store and say what was expected.
    Unclear,
}

/// The choice that a reply makes.
pub open spec fn clear_choice_of(reply: Seq<char>) -> ClearChoice {
    if reply == "y"@ || reply == "Y"@ {
        ClearChoice::Clear
    } else if reply == "n"@ || reply == "N"@ {
        ClearChoice::Keep
    } else {
        ClearChoice::Unclear
    }
}

/// Reads a reply to the question whether to clear the store.
pub fn confirm_clear(reply: &str) -> (r: ClearChoice)
    ensures
        r == clear_choice_of(reply@),
{
    if same_text(reply, "y") || same_text(reply, "Y") {
        ClearChoice::Clear
    } else if same_text(reply, "n") || same_text(reply, "N") {
        ClearChoice::Keep
    } else {
        ClearChoice::Unclear
    }
}

/// Why a change to the store was refused.
#[derive(PartialEq, Eq, Structural, Clone, Copy, Debug)]
pub enum StoreError {
    /// No expense carries the identifier asked for.
    NotFound,
    /// A new amount was given that is not above zero.
    InvalidAmount,
}

/// The changes asked for one expense; a field left `None` keeps its value.
pub struct ExpenseUpdate {
    pub description: Option<String>,
    pub amount: Option<i64>,
    pub category: Option<Category>,
}

/// True unless the update asks for an amount that is not above zero.
pub open spec fn amount_accepted(u: ExpenseUpdate) -> bool {
    u.amount matches Some(a) ==> a > 0
}

/// The expense `e` after the changes `u`, made at the moment `stamp`.
pub open spec fn updated(e: Expense, u: ExpenseUpdate, stamp: Seq<char>) -> ExpenseView {
    ExpenseView {
        id: e.id@,
        description: match u.description {
            Some(d) => d@,
            None => e.description@,
        },
        amount: match u.amount {
            Some(a) => a as int,
            None => e.amount as int,
        },
        category: match u.category {
            Some(c) => c,
            None => e.category,
        },
        added_at: e.added_at@,
        updated_at: stamp,
    }
}

/// Applies `changes` to the first expense with the given identifier, stamping
/// it with `stamp`, and returns its position. Nothing changes on an error.
pub fn update_by_id(all_expenses: &mut Vec<Expense>, id: &str, changes: ExpenseUpdate, stamp: String) -> (r: Result<usize, StoreError>)
    ensures
        r == Err::<usize, StoreError>(StoreError::NotFound) <==> absent(old(all_expenses)@, id@),
        r == Err::<usize, StoreError>(StoreError::InvalidAmount) <==> !absent(old(all_expenses)@, id@) && !amount_accepted(changes),
        r is Err ==> final(all_expenses)@ == old(all_expenses)@,
        r matches Ok(i) ==> {
            &&& first_with_id(old(all_expenses)@, id@, i as int)
            &&& final(all_expenses)@.len() == old(all_expenses)@.len()
            &&& final(all_expenses)@[i as int]@ == updated(old(all_expenses)@[i as int], changes, stamp@)
            &&& forall|j: int| 0 <= j < old(all_expenses)@.len() && j != i ==> final(all_expenses)@[j] == old(all_expenses)@[j]
        },
{
    let i = match search_expense_by_id(all_expenses.as_slice(), id) {
        Some(i) => i,
        None => return Err(StoreError::NotFound),
    };
    if let Some(a) = changes.amount {
        if a <= 0 {
            return Err(StoreError::InvalidAmount);
        }
    }
    let current = &all_expenses[i];
    let description = match changes.description {
        Some(d) => d,
        None => current.description.clone(),
    };
    let amount = match changes.amount {
        Some(a) => a,
        None => current.amount,
    };
    let category = match changes.category {
        Some(c) => c,
        None => current.category,
    };
    let e = Expense {
        id: current.id.clone(),
        description,
        amount,
        category,
        added_at: current.added_at.clone(),
        updated_at: stamp,
    };
    all_expenses.set(i, e);
    Ok(i)
}

impl Expense {
    /// Puts `update_ready_expense` at `index` of the store and hands it back.
    pub fn update(update_ready_expense: Expense, all_expenses: &mut [Expense], index: usize) -> (r: Self)
        requires
            index < old(all_expenses)@.len(),
        ensures
            final(all_expenses)@ == old(all_expenses)@.update(index as int, update_ready_expense),
            r == update_ready_expense,
    {
        all_expenses[index] = update_ready_expense.duplicate();
        update_ready_expense
    }
}

} // verus!
