use vstd::prelude::*;

use crate::date::Date;
use crate::error::LedgerError;
use crate::totals::Filter;

verus! {

/// One request for a total, as it is run against the ledger.
#[derive(Debug, PartialEq, Eq)]
pub enum SummaryQuery {
    /// Total of one category.
    Category(String),
    /// Total of one day.
    Day(Date),
    /// Total of one month of the year, over all years.
    Month(u8),
    /// Total of everything.
    All,
}

impl View for SummaryQuery {
    type V = Filter;

    open spec fn view(&self) -> Filter {
        match self {
            SummaryQuery::Category(label) => Filter::Category(label@),
            SummaryQuery::Day(date) => Filter::Day(date@),
            SummaryQuery::Month(month) => Filter::Month(*month as int),
            SummaryQuery::All => Filter::All,
        }
    }
}

/// The one filter that a request for a total selects.
///
/// Of the filters given, the first in the order category, day, month, all
/// wins and the others are ignored. A month outside 1 to 12 is refused when
/// it is the one selected, and so is a request that gives no filter.
pub open spec fn selected_filter(
    category: Option<String>,
    day: Option<Date>,
    month: Option<u8>,
    all: bool,
) -> Result<Filter, LedgerError> {
    if let Some(label) = category {
        Ok(Filter::Category(label@))
    } else if let Some(date) = day {
        Ok(Filter::Day(date@))
    } else if let Some(number) = month {
        if 1 <= number <= 12 {
            Ok(Filter::Month(number as int))
        } else {
            Err(LedgerError::InvalidArgument)
        }
    } else if all {
        Ok(Filter::All)
    } else {
        Err(LedgerError::InvalidArgument)
    }
}

impl SummaryQuery {
    /// Picks the query to run from the filters of one request: see
    /// [`selected_filter`].
    pub fn select(category: Option<String>, day: Option<Date>, month: Option<u8>, all: bool) -> (picked:
        Result<SummaryQuery, LedgerError>)
        ensures
            match picked {
                Ok(query) => selected_filter(category, day, month, all) == Ok::<
                    Filter,
                    LedgerError,
                >(query@),
                Err(refusal) => selected_filter(category, day, month, all) == Err::<
                    Filter,
                    LedgerError,
                >(refusal),
            },
    {
        if let Some(label) = category {
            Ok(SummaryQuery::Category(label))
        } else if let Some(date) = day {
            Ok(SummaryQuery::Day(date))
        } else if let Some(number) = month {
            if 1 <= number && number <= 12 {
                Ok(SummaryQuery::Month(number))
            } else {
                Err(LedgerError::InvalidArgument)
            }
        } else if all {
            Ok(SummaryQuery::All)
        } else {
            Err(LedgerError::InvalidArgument)
        }
    }
}

} // verus!
