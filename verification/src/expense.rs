use vstd::prelude::*;

use crate::date::Date;
use crate::date::DateView;
use crate::error::LedgerError;

verus! {

/// How many hundredths make one currency unit: amounts are counted in
/// hundredths.
pub const HUNDREDTHS_PER_UNIT: i64 = 100;

/// Mathematical model of an [`Expense`].
pub struct ExpenseView {
    pub date: DateView,
    pub category: Seq<char>,
    /// Signed amount, counted in hundredths of the currency unit.
    pub amount: int,
    pub description: Seq<char>,
}

/// One entry of the ledger: what was spent, when, and on what.
///
/// The amount is a signed count of hundredths of the currency unit, so that
/// totals are exact. The category is never empty.
#[derive(Debug, PartialEq, Eq)]
pub struct Expense {
    date: Date,
    category: String,
    amount: i64,
    description: String,
}

impl View for Expense {
    type V = ExpenseView;

    closed spec fn view(&self) -> ExpenseView {
        ExpenseView {
            date: self.date@,
            category: self.category@,
            amount: self.amount as int,
            description: self.description@,
        }
    }
}

impl Clone for Expense {
    fn clone(&self) -> (copy: Expense)
        ensures
            copy == *self,
    {
        proof {
            use_type_invariant(self);
        }
        Expense {
            date: self.date,
            category: self.category.clone(),
            amount: self.amount,
            description: self.description.clone(),
        }
    }
}

impl Expense {
    #[verifier::type_invariant]
    spec fn has_category(self) -> bool {
        self.category@.len() > 0
    }

    /// Builds an entry from its four fields.
    ///
    /// Fails with `InvalidArgument` exactly when `category` is empty; date,
    /// amount and description are taken as they are.
    pub fn new(date: Date, category: String, amount: i64, description: String) -> (made: Result<
        Expense,
        LedgerError,
    >)
        ensures
            category@.len() > 0 ==> (made matches Ok(expense) && expense@ == (ExpenseView {
                date: date@,
                category: category@,
                amount: amount as int,
                description: description@,
            })),
            category@.len() == 0 ==> made == Err::<Expense, LedgerError>(
                LedgerError::InvalidArgument,
            ),
    {
        if category.as_str().is_empty() {
            Err(LedgerError::InvalidArgument)
        } else {
            Ok(Expense { date, category, amount, description })
        }
    }

    /// The day of the expense.
    pub fn date(&self) -> (date: Date)
        ensures
            date@ == self@.date,
    {
        self.date
    }

    /// The category, which is never empty.
    pub fn category(&self) -> (category: &str)
        ensures
            category@ == self@.category,
            category@.len() > 0,
    {
        proof {
            use_type_invariant(self);
        }
        self.category.as_str()
    }

    /// Whether the category is exactly `label`: no trimming, no folding of
    /// case.
    pub fn in_category(&self, label: &String) -> (same: bool)
        ensures
            same == (self@.category == label@),
    {
        self.category == *label
    }

    /// The amount in hundredths of the currency unit.
    pub fn amount(&self) -> (amount: i64)
        ensures
            amount == self@.amount,
    {
        self.amount
    }

    /// The description, as it was given.
    pub fn description(&self) -> (description: &str)
        ensures
            description@ == self@.description,
    {
        self.description.as_str()
    }
}

} // verus!
