//! Alert configurations: which metrics can be alerted on, and which alert
//! an app may address.
use vstd::prelude::*;
use crate::text::str_eq;
use crate::unicode::{lowercase, to_lowercase};

verus! {

/// The metrics an alert can watch, named in any case.
pub open spec fn valid_metric_type(metric_type: Seq<char>) -> bool {
    let l = lowercase(metric_type);
    l == "cpu"@ || l == "memory"@ || l == "disk"@
}

/// Whether an alert can watch this metric.
pub fn is_valid_metric_type(metric_type: &str) -> (r: bool)
    ensures
        r == valid_metric_type(metric_type@),
{
    let l = to_lowercase(metric_type);
    str_eq(l.as_str(), "cpu") || str_eq(l.as_str(), "memory") || str_eq(l.as_str(), "disk")
}

/// Whether an alert belongs to the app it is addressed through; one of
/// another app (or a global default) is answered as not found.
pub fn alert_belongs_to(alert_app_id: &Option<String>, app_id: &str) -> (r: bool)
    ensures
        r == (alert_app_id matches Some(a) && a@ == app_id@),
{
    match alert_app_id {
        Some(a) => str_eq(a.as_str(), app_id),
        None => false,
    }
}

} // verus!
