use vstd::prelude::*;
use vstd::string::*;

verus! {

/// The tag that groups an expense.
#[derive(PartialEq, Eq, Structural, Clone, Copy, Debug)]
pub enum Category {
    Food,
    Transportation,
    Entertainment,
    Internet,
    UtilityBill,
    Other,
}

/// The category that a user-supplied word stands for.
pub open spec fn category_of(word: Seq<char>) -> Category {
    if word == "food"@ {
        Category::Food
    } else if word == "transportation"@ {
        Category::Transportation
    } else if word == "entertainment"@ {
        Category::Entertainment
    } else if word == "internet"@ {
        Category::Internet
    } else {
        Category::Other
    }
}

/// The text that names a category in listings and exports.
pub open spec fn category_name(c: Category) -> Seq<char> {
    match c {
        Category::Food => "Food"@,
        Category::Transportation => "Transportation"@,
        Category::Entertainment => "Entertainment"@,
        Category::Internet => "Internet"@,
        Category::UtilityBill => "UtilityBill"@,
        Category::Other => "Other"@,
    }
}

/// True when `a` and `b` hold the same characters.
pub fn same_text(a: &str, b: &str) -> (r: bool)
    ensures
        r == (a@ == b@),
{
    String::from_str(a) == String::from_str(b)
}

/// Maps a category word to its category; a word that names none maps to `Other`.
pub fn map_category(category: &str) -> (r: Category)
    ensures
        r == category_of(category@),
{
    if same_text(category, "food") {
        Category::Food
    } else if same_text(category, "transportation") {
        Category::Transportation
    } else if same_text(category, "entertainment") {
        Category::Entertainment
    } else if same_text(category, "internet") {
        Category::Internet
    } else {
        Category::Other
    }
}

impl Category {
    /// The name of the category, as listings and exports show it.
    pub fn name(&self) -> (r: String)
        ensures
            r@ == category_name(*self),
    {
        match self {
            Category::Food => String::from_str("Food"),
            Category::Transportation => String::from_str("Transportation"),
            Category::Entertainment => String::from_str("Entertainment"),
            Category::Internet => String::from_str("Internet"),
            Category::UtilityBill => String::from_str("UtilityBill"),
            Category::Other => String::from_str("Other"),
        }
    }
}

} // verus!
