use vstd::prelude::*;

use crate::command::ledger_after;
use crate::command::reply_to;
use crate::command::CommandView;
use crate::error::LedgerError;
use crate::expense::ExpenseView;
use crate::totals::distinct_categories;
use crate::totals::lemma_total_push;
use crate::totals::numbered;
use crate::totals::total;
use crate::totals::total_over_categories;
use crate::totals::Filter;
use crate::tracker::resolved_row;

verus! {

/// A ledger without entries has no rows to show, every total over it is
/// zero, and every row number is refused with `NoExpenses`.
pub proof fn lemma_empty_ledger(filter: Filter, row_number: int)
    ensures
        total(Seq::<ExpenseView>::empty(), filter) == 0,
        numbered(Seq::<ExpenseView>::empty()).len() == 0,
        resolved_row(0, row_number) == Err::<int, LedgerError>(LedgerError::NoExpenses),
{
}

/// Over a ledger without entries the category totals add up to zero.
proof fn lemma_no_records_no_category_totals(labels: Seq<Seq<char>>)
    ensures
        total_over_categories(Seq::<ExpenseView>::empty(), labels) == 0,
    decreases labels.len(),
{
    if labels.len() > 0 {
        lemma_no_records_no_category_totals(labels.drop_last());
    }
}

/// Appending an entry adds its amount to the sum of the category totals once
/// if a duplicate-free list of labels names its category, and not at all
/// otherwise.
proof fn lemma_category_totals_push(
    records: Seq<ExpenseView>,
    entry: ExpenseView,
    labels: Seq<Seq<char>>,
)
    requires
        labels.no_duplicates(),
    ensures
        total_over_categories(records.push(entry), labels) == total_over_categories(records, labels)
            + if labels.contains(entry.category) {
            entry.amount
        } else {
            0
        },
    decreases labels.len(),
{
    if labels.len() > 0 {
        let rest = labels.drop_last();
        let label = labels.last();
        lemma_category_totals_push(records, entry, rest);
        lemma_total_push(records, entry, Filter::Category(label));
        if labels.contains(entry.category) && entry.category != label {
            let j = choose|j: int| 0 <= j < labels.len() && labels[j] == entry.category;
            assert(rest[j] == entry.category);
        }
    }
}

/// The total of all entries is the sum of the totals of the categories, taken
/// over any list of labels that names each category of the ledger and none
/// twice.
pub proof fn lemma_total_splits_by_category(records: Seq<ExpenseView>, labels: Seq<Seq<char>>)
    requires
        labels.no_duplicates(),
        forall|i: int| 0 <= i < records.len() ==> labels.contains((#[trigger] records[i]).category),
    ensures
        total(records, Filter::All) == total_over_categories(records, labels),
    decreases records.len(),
{
    if records.len() == 0 {
        assert(records =~= Seq::<ExpenseView>::empty());
        lemma_no_records_no_category_totals(labels);
    } else {
        let earlier = records.drop_last();
        let entry = records.last();
        assert(earlier.push(entry) =~= records);
        lemma_total_splits_by_category(earlier, labels);
        lemma_category_totals_push(earlier, entry, labels);
    }
}

/// `distinct_categories` names every category of the ledger, none twice, and
/// no other.
pub proof fn lemma_distinct_categories(records: Seq<ExpenseView>)
    ensures
        distinct_categories(records).no_duplicates(),
        forall|i: int|
            0 <= i < records.len() ==> distinct_categories(records).contains(
                (#[trigger] records[i]).category,
            ),
        forall|label: Seq<char>| #[trigger]
            distinct_categories(records).contains(label) ==> exists|i: int|
                0 <= i < records.len() && (#[trigger] records[i]).category == label,
    decreases records.len(),
{
    if records.len() > 0 {
        let earlier = records.drop_last();
        let entry = records.last();
        let seen = distinct_categories(earlier);
        let now = distinct_categories(records);
        lemma_distinct_categories(earlier);
        assert forall|i: int| 0 <= i < records.len() implies now.contains(
            (#[trigger] records[i]).category,
        ) by {
            if i < earlier.len() {
                let j = choose|j: int| 0 <= j < seen.len() && seen[j] == earlier[i].category;
                assert(now[j] == records[i].category);
            } else if seen.contains(entry.category) {
            } else {
                assert(now[now.len() - 1] == entry.category);
            }
        }
        assert forall|label: Seq<char>| #[trigger] now.contains(label) implies exists|i: int|
            0 <= i < records.len() && (#[trigger] records[i]).category == label by {
            let j = choose|j: int| 0 <= j < now.len() && now[j] == label;
            if j < seen.len() {
                assert(seen.contains(label));
            }
        }
    }
}

/// The total of all entries is the sum, over the distinct categories of the
/// ledger, of the total of each.
pub proof fn lemma_total_is_sum_of_category_totals(records: Seq<ExpenseView>)
    ensures
        total(records, Filter::All) == total_over_categories(records, distinct_categories(records)),
{
    lemma_distinct_categories(records);
    lemma_total_splits_by_category(records, distinct_categories(records));
}

/// Deleting row `row` takes one row away, leaves the rows before it as they
/// were, and shows each later entry one row earlier.
pub proof fn lemma_delete_renumbers(records: Seq<ExpenseView>, row: int)
    requires
        1 <= row <= records.len(),
    ensures
        resolved_row(records.len(), row) == Ok::<int, LedgerError>(row - 1),
        numbered(records.remove(row - 1)).len() == records.len() - 1,
        forall|r: int|
            1 <= r < row ==> #[trigger] numbered(records.remove(row - 1))[r - 1] == (
                r,
                records[r - 1],
            ),
        forall|r: int|
            row < r <= records.len() ==> #[trigger] numbered(records.remove(row - 1))[r - 2] == (
                r - 1,
                records[r - 1],
            ),
{
}

/// Totals and rows depend on the entries alone: asked again of a ledger with
/// the same entries, every query answers as before.
pub proof fn lemma_reads_repeat(first: Seq<ExpenseView>, second: Seq<ExpenseView>, filter: Filter)
    requires
        first =~= second,
    ensures
        total(first, filter) == total(second, filter),
        numbered(first) == numbered(second),
{
}

/// The ledger is written back exactly when a command changed it: a command
/// that is refused and one that only reads leave the entries as they were,
/// and every other command changes them.
pub proof fn lemma_persists_iff_changed(records: Seq<ExpenseView>, command: CommandView)
    ensures
        match reply_to(records, command) {
            Ok(reply) => reply.persists() <==> ledger_after(records, command) != records,
            Err(_) => ledger_after(records, command) == records,
        },
{
}

} // verus!
