use expense_tracker::{
    add_expense, add_with_stamp, confirm_clear, expense_rows, generate_random_id, delete_by_id, delete_expense, export_csv, format_amount,
    list_expenses, prettify_expense_display, prettify_expense_not_found, search_expense_by_id,
    summarize, summary_report, total_amount, update_by_id, Category, ClearChoice, Expense,
    ExpenseUpdate, ListFilter, StoreError, SummaryError, SummaryFilter,
};

fn sample() -> Vec<Expense> {
    let mut all = Vec::new();
    add_with_stamp(&mut all, "1001".to_string(), "bread".to_string(), 250, "food", "2024-09-05 16:06:22".to_string());
    add_with_stamp(&mut all, "1002".to_string(), "bus".to_string(), 120, "transportation", "2024-10-01 08:00:00".to_string());
    add_with_stamp(&mut all, "1003".to_string(), "cheese".to_string(), 730, "food", "2024-10-02 12:30:00".to_string());
    all
}

fn no_filter() -> ListFilter {
    ListFilter { id: None, description: None, category: None, amount: None, added_at: None }
}

#[test]
fn add_stores_record_with_mapped_category() {
    let mut all = Vec::new();
    let e = add_with_stamp(&mut all, "7".to_string(), "cinema".to_string(), 4000, "entertainment", "2024-01-02 03:04:05".to_string());
    assert_eq!(all.len(), 1);
    assert_eq!(all[0].description, "cinema");
    assert_eq!(all[0].amount, 4000);
    assert_eq!(all[0].category, Category::Entertainment);
    assert_eq!(all[0].added_at, "2024-01-02 03:04:05");
    assert_eq!(all[0].updated_at, all[0].added_at);
    assert_eq!(e.id, "7");
}

#[test]
fn search_finds_first_match() {
    let mut all = sample();
    all[2].id = "1001".to_string();
    assert_eq!(search_expense_by_id(&all, "1001"), Some(0));
    assert_eq!(search_expense_by_id(&all, "1002"), Some(1));
    assert_eq!(search_expense_by_id(&all, "9999"), None);
}

#[test]
fn delete_present_id_removes_one() {
    let mut all = sample();
    let gone = delete_by_id(&mut all, "1002").unwrap();
    assert_eq!(gone.description, "bus");
    assert_eq!(all.len(), 2);
    assert_eq!(all[0].id, "1001");
    assert_eq!(all[1].id, "1003");
}

#[test]
fn delete_absent_id_leaves_store() {
    let mut all = sample();
    assert!(delete_by_id(&mut all, "4242").is_none());
    assert_eq!(all.len(), 3);
}

#[test]
fn delete_by_index() {
    let mut all = sample();
    let gone = delete_expense(0, &mut all);
    assert_eq!(gone.id, "1001");
    assert_eq!(all.len(), 2);
}

#[test]
fn update_changes_given_fields_only() {
    let mut all = sample();
    let changes = ExpenseUpdate { description: Some("rye bread".to_string()), amount: None, category: None };
    let i = update_by_id(&mut all, "1001", changes, "2024-11-11 11:11:11".to_string()).unwrap();
    assert_eq!(i, 0);
    assert_eq!(all[0].description, "rye bread");
    assert_eq!(all[0].amount, 250);
    assert_eq!(all[0].category, Category::Food);
    assert_eq!(all[0].added_at, "2024-09-05 16:06:22");
    assert_eq!(all[0].updated_at, "2024-11-11 11:11:11");
}

#[test]
fn update_rejects_non_positive_amount() {
    let mut all = sample();
    let changes = ExpenseUpdate { description: Some("x".to_string()), amount: Some(0), category: None };
    assert_eq!(update_by_id(&mut all, "1001", changes, "now".to_string()), Err(StoreError::InvalidAmount));
    assert_eq!(all[0].description, "bread");
    let changes = ExpenseUpdate { description: None, amount: Some(5), category: Some(Category::Internet) };
    assert_eq!(update_by_id(&mut all, "nope", changes, "now".to_string()), Err(StoreError::NotFound));
}

#[test]
fn update_method_replaces_at_index() {
    let mut all = sample();
    let replacement = all[2].clone();
    let r = Expense::update(replacement, &mut all, 0);
    assert_eq!(r.id, "1003");
    assert_eq!(all[0].id, "1003");
}

#[test]
fn list_without_filters_is_whole_store() {
    let all = sample();
    let listed = list_expenses(&all, &no_filter());
    let ids: Vec<&str> = listed.iter().map(|e| e.id.as_str()).collect();
    assert_eq!(ids, vec!["1001", "1002", "1003"]);
    let everything = ListFilter::everything();
    assert_eq!(list_expenses(&all, &everything).len(), 3);
}

#[test]
fn list_by_category_keeps_matches() {
    let all = sample();
    let mut f = no_filter();
    f.category = Some(Category::Food);
    let listed = list_expenses(&all, &f);
    let ids: Vec<&str> = listed.iter().map(|e| e.id.as_str()).collect();
    assert_eq!(ids, vec!["1001", "1003"]);
    f.amount = Some(730);
    assert_eq!(list_expenses(&all, &f).len(), 1);
    f.category = Some(Category::Other);
    assert!(list_expenses(&all, &f).is_empty());
}

#[test]
fn summary_total_and_difference() {
    let all = sample();
    let f = SummaryFilter { category: None, amount: None, month: None };
    let s = summarize(&all, &f, 1000).unwrap();
    assert_eq!(s.total, 1100);
    assert_eq!(s.difference, -100);
    assert_eq!(total_amount(&all), 1100);
    let f = SummaryFilter { category: None, amount: None, month: Some(10) };
    let s = summarize(&all, &f, 1000).unwrap();
    assert_eq!(s.expenses.len(), 2);
    assert_eq!(s.total, 850);
    assert_eq!(s.difference, 150);
}

#[test]
fn summary_rejects_bad_month() {
    let all = sample();
    let f = SummaryFilter { category: None, amount: None, month: Some(13) };
    assert!(matches!(summarize(&all, &f, 0), Err(SummaryError::InvalidMonth)));
    let f = SummaryFilter { category: None, amount: None, month: Some(0) };
    assert!(matches!(summarize(&all, &f, 0), Err(SummaryError::InvalidMonth)));
}

#[test]
fn summary_report_text() {
    let all = sample();
    let f = SummaryFilter { category: Some(Category::Food), amount: None, month: None };
    let s = summarize(&all, &f, 2000).unwrap();
    assert_eq!(
        summary_report(&s, &f),
        "\n\t\tTotal spent on Food stuff: 9.8\n\t\tBudget: 20\n\t\tDifference: 10.2\n"
    );
    let f = SummaryFilter { category: None, amount: None, month: Some(9) };
    let s = summarize(&all, &f, 0).unwrap();
    assert_eq!(
        summary_report(&s, &f),
        "\n\t\tTotal spent on the month of 9 stuff: 2.5\n\t\tBudget: 0\n\t\tDifference: -2.5\n"
    );
}

#[test]
fn amounts_render_like_plain_numbers() {
    assert_eq!(format_amount(4000), "40");
    assert_eq!(format_amount(1250), "12.5");
    assert_eq!(format_amount(1234), "12.34");
    assert_eq!(format_amount(7), "0.07");
    assert_eq!(format_amount(-250), "-2.5");
    assert_eq!(format_amount(0), "0");
}

#[test]
fn export_has_header_and_one_line_per_record() {
    let all = sample();
    let text = export_csv(&all);
    let lines: Vec<&str> = text.split('\n').collect();
    assert_eq!(lines.len(), 5);
    assert_eq!(lines[0], "ID,Description,Amount,Category,Added At,Updated At");
    assert_eq!(lines[1], "1001,bread,2.5,Food,2024-09-05 16:06:22,2024-09-05 16:06:22");
    assert_eq!(lines[2].split(',').collect::<Vec<_>>(), vec!["1002", "bus", "1.2", "Transportation", "2024-10-01 08:00:00", "2024-10-01 08:00:00"]);
    assert_eq!(lines[4], "");
}

#[test]
fn export_of_empty_store_is_header_only() {
    assert_eq!(export_csv(&[]), "ID,Description,Amount,Category,Added At,Updated At\n");
}

#[test]
fn table_lists_rows() {
    let all = sample();
    let table = prettify_expense_display(&all);
    assert!(table.contains("Last Updated"));
    assert!(table.contains("cheese"));
    assert!(table.contains("7.3"));
    let empty = prettify_expense_display(&[]);
    assert!(empty.contains("No expenses found"));
    assert!(prettify_expense_not_found().contains("No expenses found"));
}

#[test]
fn clear_reply() {
    assert_eq!(confirm_clear("y"), ClearChoice::Clear);
    assert_eq!(confirm_clear("Y"), ClearChoice::Clear);
    assert_eq!(confirm_clear("N"), ClearChoice::Keep);
    assert_eq!(confirm_clear("yes"), ClearChoice::Unclear);
}

#[test]
fn update_sets_positive_amount_and_category() {
    let mut all = sample();
    let changes = ExpenseUpdate { description: None, amount: Some(999), category: Some(Category::UtilityBill) };
    assert_eq!(update_by_id(&mut all, "1003", changes, "2025-01-01 00:00:00".to_string()), Ok(2));
    assert_eq!(all[2].amount, 999);
    assert_eq!(all[2].category, Category::UtilityBill);
    assert_eq!(all[2].description, "cheese");
    assert_eq!(all[1].amount, 120);
}

#[test]
fn rows_are_numbered_from_one() {
    let all = sample();
    let rows = expense_rows(&all);
    assert_eq!(rows.len(), 3);
    assert_eq!(rows[0], vec!["1", "1001", "bread", "2.5", "Food", "2024-09-05 16:06:22"]);
    assert_eq!(rows[2][0], "3");
    let empty = expense_rows(&[]);
    assert_eq!(empty, vec![vec!["No expenses found"; 5]]);
}

#[test]
fn random_ids_stay_in_range() {
    for _ in 0..200 {
        let n = generate_random_id();
        assert!((1000..9999).contains(&n));
    }
}

#[test]
fn add_expense_appends_with_mapped_category() {
    let mut all = sample();
    let e = add_expense(&mut all, "router".to_string(), 5999, "internet").unwrap();
    assert_eq!(all.len(), 4);
    assert_eq!(all[3].id, e.id);
    assert_eq!(all[3].category, Category::Internet);
    assert_eq!(all[3].amount, 5999);
    assert_eq!(all[3].added_at, all[3].updated_at);
}
