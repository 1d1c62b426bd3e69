//! Cost reports: the periods a report may cover.
use vstd::prelude::*;
use crate::text::{owned, str_eq};

verus! {

/// Query parameters for cost endpoints.
pub struct CostQueryParams {
    /// Period for cost calculation: 7d, 30d, or 90d (default: 30d)
    pub period: String,
}

/// The period a cost report covers unless the query says otherwise.
pub fn default_period() -> (r: String)
    ensures
        r@ == "30d"@,
{
    owned("30d")
}

/// The number of days of a report period, if it is one of `7d`, `30d`
/// and `90d`.
pub open spec fn spec_period_days(period: Seq<char>) -> Option<i64> {
    if period == "7d"@ {
        Some(7)
    } else if period == "30d"@ {
        Some(30)
    } else if period == "90d"@ {
        Some(90)
    } else {
        None
    }
}

/// Parses a report period into its number of days; any other period is a
/// bad request (status 400).
pub fn parse_period(period: &str) -> (r: Result<i64, u16>)
    ensures
        match spec_period_days(period@) {
            Some(d) => r == Ok::<i64, u16>(d),
            None => r == Err::<i64, u16>(400),
        },
{
    if str_eq(period, "7d") {
        Ok(7)
    } else if str_eq(period, "30d") {
        Ok(30)
    } else if str_eq(period, "90d") {
        Ok(90)
    } else {
        Err(400)
    }
}

} // verus!
