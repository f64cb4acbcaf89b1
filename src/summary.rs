use vstd::prelude::*;
use vstd::string::*;
use crate::category::{category_name, Category};
use crate::text::{amount_text, decimal_digits, decimal_text, format_amount};
use crate::clock::{get_month_from_date_string, month_in};
use crate::expense::Expense;

verus! {

/// The largest magnitude of one amount: 2^63.
pub open spec fn amount_bound() -> int {
    0x8000_0000_0000_0000
}

/// The sum of the amounts of `s`.
pub open spec fn sum_amounts(s: Seq<Expense>) -> int
    decreases s.len(),
{
    if s.len() == 0 {
        0
    } else {
        sum_amounts(s.drop_last()) + s.last().amount
    }
}

/// Adds up the amounts of the expenses, in hundredths.
pub fn total_amount(expenses: &[Expense]) -> (r: i128)
    ensures
        r == sum_amounts(expenses@),
        -(expenses@.len() * amount_bound()) <= r <= expenses@.len() * amount_bound(),
{
    let mut total: i128 = 0;
    let mut i: usize = 0;
    while i < expenses.len()
        invariant
            0 <= i <= expenses@.len(),
            total == sum_amounts(expenses@.subrange(0, i as int)),
            -(i * amount_bound()) <= total <= i * amount_bound(),
        decreases expenses@.len() - i,
    {
        proof {
            assert(expenses@.subrange(0, i + 1).drop_last() =~= expenses@.subrange(0, i as int));
            assert(i + 1 <= usize::MAX);
        }
        total = total + expenses[i].amount as i128;
        i = i + 1;
    }
    proof {
        assert(expenses@.subrange(0, expenses@.len() as int) =~= expenses@);
    }
    total
}

/// What a summary asks of each expense; a field left `None` asks nothing.
pub struct SummaryFilter {
    pub category: Option<Category>,
    pub amount: Option<i64>,
    pub month: Option<u32>,
}

/// True when `e` meets every condition that `f` sets; an expense whose
/// timestamp does not parse is in no month.
pub open spec fn summary_match(f: SummaryFilter, e: Expense) -> bool {
    &&& f.category matches Some(c) ==> e.category == c
    &&& f.amount matches Some(a) ==> e.amount == a
    &&& f.month matches Some(m) ==> month_in(e.added_at@) == Some(m)
}

/// The expenses of `s` that `f` keeps, in their order in `s`.
pub open spec fn summarized(s: Seq<Expense>, f: SummaryFilter) -> Seq<Expense> {
    s.filter(|e: Expense| summary_match(f, e))
}

/// True when the month asked for, if any, is one of 1 to 12.
pub open spec fn month_valid(f: SummaryFilter) -> bool {
    f.month matches Some(m) ==> 1 <= m <= 12
}

impl SummaryFilter {
    /// True when `e` meets every condition of this filter.
    pub fn accepts(&self, e: &Expense) -> (r: bool)
        ensures
            r == summary_match(*self, *e),
    {
        let category_ok = match self.category {
            Some(c) => e.category == c,
            None => true,
        };
        let amount_ok = match self.amount {
            Some(a) => e.amount == a,
            None => true,
        };
        let month_ok = match self.month {
            Some(m) => match get_month_from_date_string(e.added_at.as_str()) {
                Some(got) => got == m,
                None => false,
            },
            None => true,
        };
        category_ok && amount_ok && month_ok
    }
}

/// Why a summary was refused.
#[derive(PartialEq, Eq, Structural, Clone, Copy, Debug)]
pub enum SummaryError {
    /// The month asked for is not one of 1 to 12.
    InvalidMonth,
}

/// The expenses a summary covers, their total and how it stands against the
/// budget. Amounts are in hundredths.
pub struct Summary {
    pub expenses: Vec<Expense>,
    pub total: i128,
    pub budget: i64,
    pub difference: i128,
}

/// Summarises the expenses that `filter` keeps against `budget`.
pub fn summarize(expenses: &[Expense], filter: &SummaryFilter, budget: i64) -> (r: Result<Summary, SummaryError>)
    ensures
        r is Err <==> !month_valid(*filter),
        r matches Ok(s) ==> {
            &&& s.expenses@ == summarized(expenses@, *filter)
            &&& s.total == sum_amounts(s.expenses@)
            &&& s.budget == budget
            &&& s.difference == budget - s.total
        },
{
    if let Some(m) = filter.month {
        if m < 1 || m > 12 {
            return Err(SummaryError::InvalidMonth);
        }
    }
    let ghost keep = |e: Expense| summary_match(*filter, e);
    let mut kept: Vec<Expense> = Vec::new();
    let mut i: usize = 0;
    proof {
        reveal(Seq::filter);
        assert(expenses@.subrange(0, 0).filter(keep) =~= Seq::<Expense>::empty());
    }
    while i < expenses.len()
        invariant
            0 <= i <= expenses@.len(),
            keep == (|e: Expense| summary_match(*filter, e)),
            kept@ == expenses@.subrange(0, i as int).filter(keep),
        decreases expenses@.len() - i,
    {
        let e = &expenses[i];
        proof {
            reveal(Seq::filter);
            assert(expenses@.subrange(0, i + 1).drop_last() =~= expenses@.subrange(0, i as int));
            assert(expenses@.subrange(0, i + 1).last() == *e);
        }
        if filter.accepts(e) {
            kept.push(e.duplicate());
        }
        i = i + 1;
    }
    proof {
        assert(expenses@.subrange(0, expenses@.len() as int) =~= expenses@);
    }
    let total = total_amount(kept.as_slice());
    proof {
        assert(kept@.len() * amount_bound() <= 0xffff_ffff_ffff_ffff * amount_bound());
    }
    let difference = budget as i128 - total;
    Ok(Summary { expenses: kept, total, budget, difference })
}

/// The opening of a summary's report: what the total covers.
pub open spec fn summary_heading(f: SummaryFilter) -> Seq<char> {
    match f.category {
        Some(c) => "\n\t\tTotal spent on "@ + category_name(c) + " stuff: "@,
        None => match f.month {
            Some(m) => "\n\t\tTotal spent on the month of "@ + decimal_digits(m as nat) + " stuff: "@,
            None => "\n\t\tTotal spent on all stuff: "@,
        },
    }
}

/// The report of a summary: total, budget and difference.
pub open spec fn summary_text(s: Summary, f: SummaryFilter) -> Seq<char> {
    summary_heading(f) + amount_text(s.total as int) + "\n\t\tBudget: "@ + amount_text(s.budget as int)
        + "\n\t\tDifference: "@ + amount_text(s.difference as int) + "\n"@
}

/// Writes the report of a summary made with `filter`.
pub fn summary_report(summary: &Summary, filter: &SummaryFilter) -> (r: String)
    ensures
        r@ == summary_text(*summary, *filter),
{
    let mut r = match filter.category {
        Some(c) => {
            let mut h = String::from_str("\n\t\tTotal spent on ");
            let name = c.name();
            h.append(name.as_str());
            h.append(" stuff: ");
            h
        },
        None => match filter.month {
            Some(m) => {
                let mut h = String::from_str("\n\t\tTotal spent on the month of ");
                let digits = decimal_text(m as u128);
                h.append(digits.as_str());
                h.append(" stuff: ");
                h
            },
            None => String::from_str("\n\t\tTotal spent on all stuff: "),
        },
    };
    let total = format_amount(summary.total);
    r.append(total.as_str());
    r.append("\n\t\tBudget: ");
    let budget = format_amount(summary.budget as i128);
    r.append(budget.as_str());
    r.append("\n\t\tDifference: ");
    let difference = format_amount(summary.difference);
    r.append(difference.as_str());
    r.append("\n");
    r
}

} // verus!
