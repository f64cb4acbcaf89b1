use expense_tracker::{convert_from_system_time, get_month_from_date_string, map_category, Category, Expense};
use expense_tracker::now_stamp;

#[test]
fn test_expense() {
    let new_expense = Expense::new("description".to_string(), 4000, map_category("category")).unwrap();

    assert_eq!(new_expense.description, "description");
    assert_eq!(new_expense.amount, 4000);
    assert_eq!(new_expense.category, Category::Other)
}

#[test]
fn test_map_category() {
    // Should be of category food
    let category = "food";
    assert_eq!(map_category(category), Category::Food);

    // Should be transportation
    let category = "transportation";
    assert_eq!(map_category(category), Category::Transportation);

    // Should be entertainment
    let category = "entertainment";
    assert_eq!(map_category(category), Category::Entertainment);

    // Should be other
    let category = "should be other";
    assert_eq!(map_category(category), Category::Other);
}

#[test]
fn test_get_month_from_date_string() {
    let month = get_month_from_date_string("2024-09-05 16:06:22");

    assert_eq!(month, Some(9));
}

#[test]
fn test_convert_from_system_time() {
    // 2024-09-05 16:06:22 UTC
    let time = convert_from_system_time(1_725_552_382, 0).unwrap();
    assert!(time.contains("2024"));
    assert!(time.contains("09"));
    assert_eq!(time, "2024-09-05 16:06:22");
}

#[test]
fn map_category_internet_and_case() {
    assert_eq!(map_category("internet"), Category::Internet);
    assert_eq!(map_category("Food"), Category::Other);
    assert_eq!(map_category(""), Category::Other);
}

#[test]
fn month_of_unparsable_text_is_none() {
    assert_eq!(get_month_from_date_string("not a date"), None);
    assert_eq!(get_month_from_date_string("2024-12-31 23:59:59"), Some(12));
}

#[test]
fn new_expense_has_four_digit_id_and_equal_stamps() {
    let e = Expense::new("lunch".to_string(), 1250, Category::Food).unwrap();
    let n: u64 = e.id.parse().unwrap();
    assert!((1000..9999).contains(&n));
    assert_eq!(e.added_at, e.updated_at);
    assert_eq!(e.added_at.len(), 19);
}

#[test]
fn stamps_outside_chrono_range_are_none() {
    assert_eq!(convert_from_system_time(i64::MAX, 0), None);
    assert_eq!(convert_from_system_time(0, 0), Some("1970-01-01 00:00:00".to_string()));
    assert_eq!(convert_from_system_time(253_402_300_799, 999_999_999), Some("9999-12-31 23:59:59".to_string()));
}

#[test]
fn current_stamp_has_timestamp_shape() {
    let stamp = now_stamp().unwrap();
    assert_eq!(stamp.len(), 19);
    assert_eq!(&stamp[4..5], "-");
    assert_eq!(&stamp[10..11], " ");
}
