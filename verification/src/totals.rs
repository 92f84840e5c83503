use vstd::prelude::*;

use crate::date::DateView;
use crate::expense::ExpenseView;

verus! {

/// Which entries a total is taken over.
pub enum Filter {
    /// Every entry.
    All,
    /// The entries whose category is exactly this text.
    Category(Seq<char>),
    /// The entries dated on exactly this day.
    Day(DateView),
    /// The entries dated in this month of the year, whatever the year.
    Month(int),
}

impl Filter {
    /// Whether the total counts `entry`.
    pub open spec fn admits(self, entry: ExpenseView) -> bool {
        match self {
            Filter::All => true,
            Filter::Category(label) => entry.category == label,
            Filter::Day(date) => entry.date == date,
            Filter::Month(month) => entry.date.month == month,
        }
    }
}

/// What `entry` adds to a total taken under `filter`.
pub open spec fn share(entry: ExpenseView, filter: Filter) -> int {
    if filter.admits(entry) {
        entry.amount
    } else {
        0
    }
}

/// Sum of the amounts of the entries of `records` that `filter` admits.
pub open spec fn total(records: Seq<ExpenseView>, filter: Filter) -> int
    decreases records.len(),
{
    if records.len() == 0 {
        0
    } else {
        total(records.drop_last(), filter) + share(records.last(), filter)
    }
}

/// Sum over `labels` of the totals of the categories they name.
pub open spec fn total_over_categories(records: Seq<ExpenseView>, labels: Seq<Seq<char>>) -> int
    decreases labels.len(),
{
    if labels.len() == 0 {
        0
    } else {
        total_over_categories(records, labels.drop_last()) + total(
            records,
            Filter::Category(labels.last()),
        )
    }
}

/// The categories that occur in `records`, each once, in order of first
/// appearance.
pub open spec fn distinct_categories(records: Seq<ExpenseView>) -> Seq<Seq<char>>
    decreases records.len(),
{
    if records.len() == 0 {
        Seq::empty()
    } else {
        let earlier = distinct_categories(records.drop_last());
        if earlier.contains(records.last().category) {
            earlier
        } else {
            earlier.push(records.last().category)
        }
    }
}

/// The rows as they are shown: each entry with its position, counted from 1.
pub open spec fn numbered(records: Seq<ExpenseView>) -> Seq<(int, ExpenseView)> {
    Seq::new(records.len(), |i: int| (i + 1, records[i]))
}

/// Appending an entry adds its share to every total.
pub proof fn lemma_total_push(records: Seq<ExpenseView>, entry: ExpenseView, filter: Filter)
    ensures
        total(records.push(entry), filter) == total(records, filter) + share(entry, filter),
{
    assert(records.push(entry).drop_last() =~= records);
}

} // verus!
