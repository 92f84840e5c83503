use vstd::prelude::*;

use crate::error::LedgerError;
use crate::expense::Expense;
use crate::expense::ExpenseView;
use crate::query::SummaryQuery;
use crate::totals::total;
use crate::totals::Filter;
use crate::tracker::resolved_row;
use crate::tracker::ExpenseTracker;

verus! {

/// One request to the ledger. An invocation loads the ledger, applies exactly
/// one command, and writes the ledger back only where the reply asks for it.
#[derive(Debug, PartialEq, Eq)]
pub enum Command {
    /// Append this expense.
    Add(Expense),
    /// Delete the row with this number.
    Delete(usize),
    /// Compute this total.
    Summary(SummaryQuery),
    /// Show all rows.
    List,
}

/// Mathematical model of a [`Command`].
pub enum CommandView {
    Add(ExpenseView),
    Delete(int),
    Summary(Filter),
    List,
}

impl View for Command {
    type V = CommandView;

    open spec fn view(&self) -> CommandView {
        match self {
            Command::Add(expense) => CommandView::Add(expense@),
            Command::Delete(row_number) => CommandView::Delete(*row_number as int),
            Command::Summary(query) => CommandView::Summary(query@),
            Command::List => CommandView::List,
        }
    }
}

/// What a command that was carried out leaves to be done.
#[derive(Clone, Copy, Debug, PartialEq, Eq, Structural)]
pub enum Reply {
    /// An expense was appended: the ledger changed.
    Added,
    /// A row was deleted: the ledger changed.
    Deleted,
    /// The total that was asked for, in hundredths.
    Total(i128),
    /// The rows are to be shown as they stand.
    Rows,
}

/// Mathematical model of a [`Reply`].
pub enum ReplyView {
    Added,
    Deleted,
    Total(int),
    Rows,
}

impl ReplyView {
    /// Whether the ledger has to be written back to its store.
    pub open spec fn persists(self) -> bool {
        self is Added || self is Deleted
    }
}

impl View for Reply {
    type V = ReplyView;

    open spec fn view(&self) -> ReplyView {
        match self {
            Reply::Added => ReplyView::Added,
            Reply::Deleted => ReplyView::Deleted,
            Reply::Total(sum) => ReplyView::Total(*sum as int),
            Reply::Rows => ReplyView::Rows,
        }
    }
}

impl Reply {
    /// Whether the ledger has to be written back to its store: after an
    /// expense was added or a row deleted, and never after a read.
    pub fn must_persist(&self) -> (write: bool)
        ensures
            write == self@.persists(),
    {
        match self {
            Reply::Added => true,
            Reply::Deleted => true,
            Reply::Total(_) => false,
            Reply::Rows => false,
        }
    }
}

/// The entries after `command` was applied to `records`. A command that is
/// refused, and one that only reads, leaves them as they were.
pub open spec fn ledger_after(records: Seq<ExpenseView>, command: CommandView) -> Seq<ExpenseView> {
    match command {
        CommandView::Add(expense) => records.push(expense),
        CommandView::Delete(row_number) => match resolved_row(records.len(), row_number) {
            Ok(index) => records.remove(index),
            Err(_) => records,
        },
        CommandView::Summary(_) => records,
        CommandView::List => records,
    }
}

/// The answer to `command` on `records`, or why it is refused.
pub open spec fn reply_to(records: Seq<ExpenseView>, command: CommandView) -> Result<
    ReplyView,
    LedgerError,
> {
    match command {
        CommandView::Add(_) => Ok(ReplyView::Added),
        CommandView::Delete(row_number) => match resolved_row(records.len(), row_number) {
            Ok(_) => Ok(ReplyView::Deleted),
            Err(refusal) => Err(refusal),
        },
        CommandView::Summary(filter) => Ok(ReplyView::Total(total(records, filter))),
        CommandView::List => Ok(ReplyView::Rows),
    }
}

impl ExpenseTracker {
    /// Applies one command: see [`ledger_after`] and [`reply_to`].
    pub fn apply(&mut self, command: Command) -> (done: Result<Reply, LedgerError>)
        ensures
            match done {
                Ok(reply) => reply_to(old(self)@, command@) == Ok::<ReplyView, LedgerError>(reply@),
                Err(refusal) => reply_to(old(self)@, command@) == Err::<ReplyView, LedgerError>(
                    refusal,
                ),
            },
            final(self)@ == ledger_after(old(self)@, command@),
    {
        match command {
            Command::Add(expense) => {
                self.add_expense(expense);
                Ok(Reply::Added)
            },
            Command::Delete(row_number) => match self.delete_expense(row_number) {
                Ok(()) => Ok(Reply::Deleted),
                Err(refusal) => Err(refusal),
            },
            Command::Summary(query) => Ok(Reply::Total(self.summary(&query))),
            Command::List => Ok(Reply::Rows),
        }
    }
}

} // verus!
