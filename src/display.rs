use vstd::prelude::*;
use comfy_table::Table;
use crate::category::category_name;
use crate::expense::Expense;
use crate::text::{amount_text, decimal_digits, decimal_text, format_amount};

verus! {

/// The text of each string of a sequence.
pub open spec fn texts(v: Seq<String>) -> Seq<Seq<char>> {
    v.map_values(|c: String| c@)
}

/// The text of each cell of each row.
pub open spec fn grid(rows: Seq<Vec<String>>) -> Seq<Seq<Seq<char>>> {
    rows.map_values(|row: Vec<String>| texts(row@))
}

/// The text that comfy-table draws for a bordered table with this header and
/// these rows.
pub uninterp spec fn table_text(header: Seq<Seq<char>>, rows: Seq<Seq<Seq<char>>>) -> Seq<char>;

/// Relies on comfy-table's `Table` (`set_header`, `add_rows` and its
/// `Display`), which draws a table from its header and rows alone once the
/// terminal is left out of it.
#[verifier::external_body]
fn render_table(header: Vec<String>, rows: Vec<Vec<String>>) -> (r: String)
    ensures
        r@ == table_text(texts(header@), grid(rows@)),
{
    let mut table = Table::new();
    table.force_no_tty();
    table.set_header(header);
    table.add_rows(rows);
    table.to_string()
}

/// The column titles of a listing.
pub open spec fn table_header() -> Seq<Seq<char>> {
    seq!["No"@, "ID"@, "Description"@, "Amount"@, "Category"@, "Last Updated"@]
}

/// The words that fill a listing with nothing in it.
pub open spec fn nothing_found() -> Seq<char> {
    "No expenses found"@
}

/// The row that shows the expense `e` at place `n` of a listing.
pub open spec fn display_row(n: nat, e: Expense) -> Seq<Seq<char>> {
    seq![
        decimal_digits(n),
        e.id@,
        e.description@,
        amount_text(e.amount as int),
        category_name(e.category),
        e.updated_at@,
    ]
}

/// The rows of a listing of `s`: one per expense, numbered from 1, or a
/// single row of five cells that says nothing was found.
pub open spec fn display_rows(s: Seq<Expense>) -> Seq<Seq<Seq<char>>> {
    if s.len() == 0 {
        seq![seq![nothing_found(), nothing_found(), nothing_found(), nothing_found(), nothing_found()]]
    } else {
        Seq::new(s.len(), |i: int| display_row((i + 1) as nat, s[i]))
    }
}

fn header_cells() -> (r: Vec<String>)
    ensures
        texts(r@) == table_header(),
{
    let r = vec![
        String::from_str("No"),
        String::from_str("ID"),
        String::from_str("Description"),
        String::from_str("Amount"),
        String::from_str("Category"),
        String::from_str("Last Updated"),
    ];
    assert(texts(r@) =~= table_header());
    r
}

/// The rows of a listing of `expenses`, as `display_rows` says.
pub fn expense_rows(expenses: &[Expense]) -> (r: Vec<Vec<String>>)
    ensures
        grid(r@) == display_rows(expenses@),
{
    let mut rows: Vec<Vec<String>> = Vec::new();
    if expenses.len() == 0 {
        let row = vec![
            String::from_str("No expenses found"),
            String::from_str("No expenses found"),
            String::from_str("No expenses found"),
            String::from_str("No expenses found"),
            String::from_str("No expenses found"),
        ];
        rows.push(row);
        assert(texts(row@) =~= display_rows(expenses@)[0]);
        assert(grid(rows@) =~= display_rows(expenses@));
        return rows;
    }
    let mut i: usize = 0;
    while i < expenses.len()
        invariant
            0 <= i <= expenses@.len(),
            expenses@.len() > 0,
            rows@.len() == i,
            forall|j: int| 0 <= j < i ==> texts(#[trigger] rows@[j]@) == display_row((j + 1) as nat, expenses@[j]),
        decreases expenses@.len() - i,
    {
        let e = &expenses[i];
        let row = vec![
            decimal_text((i + 1) as u128),
            e.id.clone(),
            e.description.clone(),
            format_amount(e.amount as i128),
            e.category.name(),
            e.updated_at.clone(),
        ];
        assert(texts(row@) =~= display_row((i + 1) as nat, expenses@[i as int]));
        rows.push(row);
        i = i + 1;
    }
    assert(grid(rows@) =~= display_rows(expenses@));
    rows
}

/// Draws the listing of `expenses` as a bordered table.
pub fn prettify_expense_display(expenses: &[Expense]) -> (r: String)
    ensures
        r@ == table_text(table_header(), display_rows(expenses@)),
{
    render_table(header_cells(), expense_rows(expenses))
}

/// Draws the table that says no expense was found.
pub fn prettify_expense_not_found() -> (r: String)
    ensures
        r@ == table_text(
            table_header(),
            seq![seq!["1"@, nothing_found(), nothing_found(), nothing_found(), nothing_found(), nothing_found()]],
        ),
{
    let row = vec![
        decimal_text(1),
        String::from_str("No expenses found"),
        String::from_str("No expenses found"),
        String::from_str("No expenses found"),
        String::from_str("No expenses found"),
        String::from_str("No expenses found"),
    ];
    proof {
        reveal_strlit("0123456789");
        reveal_strlit("1");
        assert(decimal_digits(1) =~= "1"@);
        assert(texts(row@) =~= seq!["1"@, nothing_found(), nothing_found(), nothing_found(), nothing_found(), nothing_found()]);
    }
    let rows = vec![row];
    assert(grid(rows@) =~= seq![seq!["1"@, nothing_found(), nothing_found(), nothing_found(), nothing_found(), nothing_found()]]);
    render_table(header_cells(), rows)
}

} // verus!
