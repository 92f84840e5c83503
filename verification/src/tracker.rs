use vstd::prelude::*;

use crate::date::lemma_date_view_injective;
use crate::date::Date;
use crate::error::LedgerError;
use crate::expense::Expense;
use crate::expense::ExpenseView;
use crate::query::SummaryQuery;
use crate::totals::numbered;
use crate::totals::share;
use crate::totals::total;
use crate::totals::Filter;

verus! {

/// The models of a run of entries, in order.
pub open spec fn views_of(entries: Seq<Expense>) -> Seq<ExpenseView> {
    Seq::new(entries.len(), |i: int| entries[i]@)
}

/// The models of rows as [`ExpenseTracker::list`] hands them out.
pub open spec fn row_views(rows: Seq<(usize, &Expense)>) -> Seq<(int, ExpenseView)> {
    Seq::new(rows.len(), |i: int| (rows[i].0 as int, rows[i].1@))
}

/// The position in the ledger that a row number names, counted from 0.
///
/// Row numbers start at 1. On a ledger without entries every row number is
/// refused with `NoExpenses`; otherwise one that is zero or past the last
/// row is refused with `OutOfRange`.
pub open spec fn resolved_row(rows: nat, row_number: int) -> Result<int, LedgerError> {
    if rows == 0 {
        Err(LedgerError::NoExpenses)
    } else if row_number < 1 || row_number > rows {
        Err(LedgerError::OutOfRange)
    } else {
        Ok(row_number - 1)
    }
}

/// The ledger: expenses in the order in which they were added. The row
/// number of an entry is its position, counted from 1.
#[derive(Debug, PartialEq, Eq)]
pub struct ExpenseTracker {
    expenses: Vec<Expense>,
}

impl View for ExpenseTracker {
    type V = Seq<ExpenseView>;

    closed spec fn view(&self) -> Seq<ExpenseView> {
        views_of(self.expenses@)
    }
}

/// Taking one more entry into a total adds the share of that entry.
proof fn lemma_total_step(records: Seq<ExpenseView>, taken: int, filter: Filter)
    requires
        0 <= taken < records.len(),
    ensures
        total(records.take(taken + 1), filter) == total(records.take(taken), filter) + share(
            records[taken],
            filter,
        ),
{
    assert(records.take(taken + 1).drop_last() =~= records.take(taken));
}

impl ExpenseTracker {
    /// A ledger without entries.
    pub fn new() -> (tracker: ExpenseTracker)
        ensures
            tracker@ == Seq::<ExpenseView>::empty(),
    {
        ExpenseTracker { expenses: Vec::new() }
    }

    /// The ledger that holds `expenses`, in their order.
    pub fn from_expenses(expenses: Vec<Expense>) -> (tracker: ExpenseTracker)
        ensures
            tracker@ == views_of(expenses@),
    {
        ExpenseTracker { expenses }
    }

    /// The entries in ledger order.
    pub fn expenses(&self) -> (entries: &Vec<Expense>)
        ensures
            views_of(entries@) == self@,
    {
        &self.expenses
    }

    /// Number of entries.
    pub fn len(&self) -> (rows: usize)
        ensures
            rows == self@.len(),
    {
        self.expenses.len()
    }

    /// Whether the ledger holds no entry.
    pub fn is_empty(&self) -> (empty: bool)
        ensures
            empty == (self@.len() == 0),
    {
        self.expenses.len() == 0
    }

    /// Turns a row number into a position: see [`resolved_row`].
    pub fn resolve_row(&self, row_number: usize) -> (found: Result<usize, LedgerError>)
        ensures
            match resolved_row(self@.len(), row_number as int) {
                Ok(index) => found == Ok::<usize, LedgerError>(index as usize),
                Err(refusal) => found == Err::<usize, LedgerError>(refusal),
            },
    {
        if self.expenses.len() == 0 {
            Err(LedgerError::NoExpenses)
        } else if row_number < 1 || row_number > self.expenses.len() {
            Err(LedgerError::OutOfRange)
        } else {
            Ok(row_number - 1)
        }
    }

    /// Appends `expense` as the last row. This always succeeds: an entry
    /// equal to an earlier one is appended like any other.
    pub fn add_expense(&mut self, expense: Expense)
        ensures
            final(self)@ == old(self)@.push(expense@),
    {
        self.expenses.push(expense);
    }

    /// Deletes the row `row_number`.
    ///
    /// Where [`resolved_row`] refuses the row number, the refusal is returned
    /// and the ledger stays as it was. Otherwise exactly that entry leaves, and
    /// the entries after it keep their order and move up by one row.
    pub fn delete_expense(&mut self, row_number: usize) -> (done: Result<(), LedgerError>)
        ensures
            match resolved_row(old(self)@.len(), row_number as int) {
                Ok(index) => done == Ok::<(), LedgerError>(()) && final(self)@ == old(self)@.remove(
                    index,
                ),
                Err(refusal) => done == Err::<(), LedgerError>(refusal) && final(self)@ == old(
                    self,
                )@,
            },
    {
        match self.resolve_row(row_number) {
            Ok(index) => {
                self.expenses.remove(index);
                Ok(())
            },
            Err(refusal) => Err(refusal),
        }
    }

    /// Sum of all amounts, in hundredths; zero for a ledger without entries.
    pub fn summary_all(&self) -> (sum: i128)
        ensures
            sum == total(self@, Filter::All),
    {
        let mut sum: i128 = 0;
        let mut i: usize = 0;
        while i < self.expenses.len()
            invariant
                i <= self.expenses.len(),
                sum == total(self@.take(i as int), Filter::All),
                i * i64::MIN <= sum <= i * i64::MAX,
            decreases self.expenses.len() - i,
        {
            proof {
                lemma_total_step(self@, i as int, Filter::All);
            }
            sum = sum + self.expenses[i].amount() as i128;
            i += 1;
        }
        assert(self@.take(i as int) =~= self@);
        sum
    }

    /// Sum of the amounts of the entries whose category is exactly
    /// `filter_by`; zero if there is none.
    pub fn summary_by_category(&self, filter_by: &str) -> (sum: i128)
        ensures
            sum == total(self@, Filter::Category(filter_by@)),
    {
        let label: String = filter_by.to_owned();
        let mut sum: i128 = 0;
        let mut i: usize = 0;
        while i < self.expenses.len()
            invariant
                i <= self.expenses.len(),
                label@ == filter_by@,
                sum == total(self@.take(i as int), Filter::Category(filter_by@)),
                i * i64::MIN <= sum <= i * i64::MAX,
            decreases self.expenses.len() - i,
        {
            proof {
                lemma_total_step(self@, i as int, Filter::Category(filter_by@));
            }
            if self.expenses[i].in_category(&label) {
                sum = sum + self.expenses[i].amount() as i128;
            }
            i += 1;
        }
        assert(self@.take(i as int) =~= self@);
        sum
    }

    /// Sum of the amounts of the entries dated on exactly `date`; zero if
    /// there is none.
    pub fn summary_by_date(&self, date: Date) -> (sum: i128)
        ensures
            sum == total(self@, Filter::Day(date@)),
    {
        let mut sum: i128 = 0;
        let mut i: usize = 0;
        while i < self.expenses.len()
            invariant
                i <= self.expenses.len(),
                sum == total(self@.take(i as int), Filter::Day(date@)),
                i * i64::MIN <= sum <= i * i64::MAX,
            decreases self.expenses.len() - i,
        {
            let dated = self.expenses[i].date();
            proof {
                lemma_total_step(self@, i as int, Filter::Day(date@));
                lemma_date_view_injective(dated, date);
            }
            if dated == date {
                sum = sum + self.expenses[i].amount() as i128;
            }
            i += 1;
        }
        assert(self@.take(i as int) =~= self@);
        sum
    }

    /// Sum of the amounts of the entries dated in month `month` of any year;
    /// zero if there is none, as for every `month` outside 1 to 12.
    pub fn summary_by_month(&self, month: u8) -> (sum: i128)
        ensures
            sum == total(self@, Filter::Month(month as int)),
            !(1 <= month <= 12) ==> sum == 0,
    {
        let mut sum: i128 = 0;
        let mut i: usize = 0;
        while i < self.expenses.len()
            invariant
                i <= self.expenses.len(),
                sum == total(self@.take(i as int), Filter::Month(month as int)),
                !(1 <= month <= 12) ==> sum == 0,
                i * i64::MIN <= sum <= i * i64::MAX,
            decreases self.expenses.len() - i,
        {
            proof {
                lemma_total_step(self@, i as int, Filter::Month(month as int));
            }
            if self.expenses[i].date().month() == month as u32 {
                sum = sum + self.expenses[i].amount() as i128;
            }
            i += 1;
        }
        assert(self@.take(i as int) =~= self@);
        sum
    }

    /// Runs one query: the total that its filter selects.
    pub fn summary(&self, query: &SummaryQuery) -> (sum: i128)
        ensures
            sum == total(self@, query@),
    {
        match query {
            SummaryQuery::Category(label) => self.summary_by_category(label.as_str()),
            SummaryQuery::Day(date) => self.summary_by_date(*date),
            SummaryQuery::Month(month) => self.summary_by_month(*month),
            SummaryQuery::All => self.summary_all(),
        }
    }

    /// The rows for display: every entry with its row number, in ledger
    /// order.
    pub fn list(&self) -> (rows: Vec<(usize, &Expense)>)
        ensures
            row_views(rows@) == numbered(self@),
    {
        let mut rows: Vec<(usize, &Expense)> = Vec::new();
        let mut i: usize = 0;
        while i < self.expenses.len()
            invariant
                i <= self.expenses.len(),
                rows@.len() == i,
                forall|k: int|
                    0 <= k < i ==> (#[trigger] rows@[k]).0 == k + 1 && rows@[k].1@ == self@[k],
            decreases self.expenses.len() - i,
        {
            rows.push((i + 1, &self.expenses[i]));
            i += 1;
        }
        rows
    }
}

} // verus!
