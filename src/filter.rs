use vstd::prelude::*;
use crate::category::Category;
use crate::expense::Expense;

verus! {

/// What a listing asks of each expense; a field left `None` asks nothing.
pub struct ListFilter {
    pub id: Option<String>,
    pub description: Option<String>,
    pub category: Option<Category>,
    pub amount: Option<i64>,
    pub added_at: Option<String>,
}

/// True when `e` meets every condition that `f` sets.
pub open spec fn list_match(f: ListFilter, e: Expense) -> bool {
    &&& f.id matches Some(v) ==> e.id@ == v@
    &&& f.description matches Some(v) ==> e.description@ == v@
    &&& f.category matches Some(c) ==> e.category == c
    &&& f.amount matches Some(a) ==> e.amount == a
    &&& f.added_at matches Some(v) ==> e.added_at@ == v@
}

/// The expenses of `s` that `f` keeps, in their order in `s`.
pub open spec fn listed(s: Seq<Expense>, f: ListFilter) -> Seq<Expense> {
    s.filter(|e: Expense| list_match(f, e))
}

impl ListFilter {
    /// A filter that keeps every expense.
    pub fn everything() -> (r: ListFilter)
        ensures
            forall|e: Expense| list_match(r, e),
    {
        ListFilter { id: None, description: None, category: None, amount: None, added_at: None }
    }

    /// True when `e` meets every condition of this filter.
    pub fn accepts(&self, e: &Expense) -> (r: bool)
        ensures
            r == list_match(*self, *e),
    {
        let id_ok = match &self.id {
            Some(v) => e.id == *v,
            None => true,
        };
        let description_ok = match &self.description {
            Some(v) => e.description == *v,
            None => true,
        };
        let category_ok = match self.category {
            Some(c) => e.category == c,
            None => true,
        };
        let amount_ok = match self.amount {
            Some(a) => e.amount == a,
            None => true,
        };
        let added_ok = match &self.added_at {
            Some(v) => e.added_at == *v,
            None => true,
        };
        id_ok && description_ok && category_ok && amount_ok && added_ok
    }
}

/// The expenses that `filter` keeps, in their order in the store.
pub fn list_expenses(expenses: &[Expense], filter: &ListFilter) -> (r: Vec<Expense>)
    ensures
        r@ == listed(expenses@, *filter),
{
    let ghost keep = |e: Expense| list_match(*filter, e);
    let mut r: Vec<Expense> = Vec::new();
    let mut i: usize = 0;
    proof {
        reveal(Seq::filter);
        assert(expenses@.subrange(0, 0).filter(keep) =~= Seq::<Expense>::empty());
    }
    while i < expenses.len()
        invariant
            0 <= i <= expenses@.len(),
            keep == (|e: Expense| list_match(*filter, e)),
            r@ == expenses@.subrange(0, i as int).filter(keep),
        decreases expenses@.len() - i,
    {
        let e = &expenses[i];
        proof {
            reveal(Seq::filter);
            assert(expenses@.subrange(0, i + 1).drop_last() =~= expenses@.subrange(0, i as int));
            assert(expenses@.subrange(0, i + 1).last() == *e);
        }
        if filter.accepts(e) {
            r.push(e.duplicate());
        }
        i = i + 1;
    }
    proof {
        assert(expenses@.subrange(0, expenses@.len() as int) =~= expenses@);
    }
    r
}

/// A listing without conditions is the whole store, in its order.
pub proof fn lemma_list_everything(s: Seq<Expense>, f: ListFilter)
    requires
        f.id is None,
        f.description is None,
        f.category is None,
        f.amount is None,
        f.added_at is None,
    ensures
        listed(s, f) == s,
    decreases s.len(),
{
    reveal(Seq::filter);
    if s.len() > 0 {
        lemma_list_everything(s.drop_last(), f);
        assert(s.drop_last().push(s.last()) =~= s);
    } else {
        assert(listed(s, f) =~= s);
    }
}

/// A listing with a category keeps only expenses of that category, and every
/// one of them that meets the other conditions.
pub proof fn lemma_list_category(s: Seq<Expense>, f: ListFilter, c: Category)
    requires
        f.category == Some(c),
    ensures
        forall|i: int| 0 <= i < listed(s, f).len()
            ==> (#[trigger] listed(s, f)[i]).category == c,
        forall|e: Expense| #[trigger] s.contains(e) && list_match(f, e)
            ==> listed(s, f).contains(e),
{
    let keep = |e: Expense| list_match(f, e);
    broadcast use vstd::seq_lib::group_filter_ensures;
    assert forall|i: int| 0 <= i < s.filter(keep).len() implies (#[trigger] s.filter(keep)[i]).category == c by {
        assert(keep(s.filter(keep)[i]));
    }
    assert forall|e: Expense| #[trigger] s.contains(e) && list_match(f, e) implies s.filter(keep).contains(e) by {
        assert(keep(e));
    }
}

} // verus!
