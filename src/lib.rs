//! Personal expense tracking: records, filters, summaries and exports.
pub mod category;
pub mod clock;
pub mod text;
pub mod expense;
pub mod store;
pub mod filter;
pub mod summary;
pub mod export;
pub mod display;

pub use category::{map_category, Category};
pub use clock::{convert_from_system_time, get_month_from_date_string, now_stamp};
pub use display::{expense_rows, prettify_expense_display, prettify_expense_not_found};
pub use expense::{generate_random_id, Expense};
pub use export::export_csv;
pub use filter::{list_expenses, ListFilter};
pub use store::{
    add_expense, add_with_stamp, confirm_clear, delete_by_id, delete_expense, search_expense_by_id,
    update_by_id, ClearChoice, ExpenseUpdate, StoreError,
};
pub use summary::{summarize, summary_report, total_amount, Summary, SummaryError, SummaryFilter};
pub use text::format_amount;
