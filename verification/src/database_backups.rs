//! Database backups: how many are listed and how a backup schedule is set.
use vstd::prelude::*;
use crate::text::{opt_view, str_eq};

verus! {

/// Query parameters for listing the backups of a database.
pub struct ListBackupsQuery {
    pub limit: Option<i32>,
}

/// The number of backups listed: the query's limit (50 by default), at
/// most 100.
pub fn backup_list_limit(query: &ListBackupsQuery) -> (r: i32)
    ensures
        r == ({
            let l = match query.limit {
                Some(l) => l,
                None => 50,
            };
            if l < 100 {
                l
            } else {
                100
            }
        }),
{
    let l = match query.limit {
        Some(l) => l,
        None => 50,
    };
    if l < 100 {
        l
    } else {
        100
    }
}

/// How often scheduled backups run.
pub enum ScheduleType {
    Hourly,
    Daily,
    Weekly,
}

/// The schedule type asked for: `hourly` and `weekly` are taken as such,
/// anything else (or nothing) means daily.
pub open spec fn spec_schedule_type(asked: Option<Seq<char>>) -> ScheduleType {
    match asked {
        Some(s) => if s == "hourly"@ {
            ScheduleType::Hourly
        } else if s == "weekly"@ {
            ScheduleType::Weekly
        } else {
            ScheduleType::Daily
        },
        None => ScheduleType::Daily,
    }
}

/// The schedule type asked for.
pub fn schedule_type(asked: &Option<String>) -> (r: ScheduleType)
    ensures
        r == spec_schedule_type(opt_view(*asked)),
{
    match asked {
        Some(s) => {
            if str_eq(s.as_str(), "hourly") {
                ScheduleType::Hourly
            } else if str_eq(s.as_str(), "weekly") {
                ScheduleType::Weekly
            } else {
                ScheduleType::Daily
            }
        },
        None => ScheduleType::Daily,
    }
}

/// Request body for creating or changing a backup schedule.
pub struct CreateBackupScheduleRequest {
    pub enabled: Option<bool>,
    pub schedule_type: Option<String>,
    pub schedule_hour: Option<i32>,
    pub schedule_day: Option<i32>,
    pub retention_count: Option<i32>,
}

/// The settings of a backup schedule.
pub struct ScheduleSettings {
    pub enabled: i32,
    pub schedule_type: ScheduleType,
    pub schedule_hour: i32,
    pub schedule_day: Option<i32>,
    pub retention_count: i32,
}

/// The settings a schedule has after a request: what the request gives,
/// else what the existing schedule has, else the defaults (enabled, at
/// 2 o'clock, keeping 5 backups).
pub fn merge_schedule(existing: &Option<ScheduleSettings>, req: &CreateBackupScheduleRequest) -> (r:
    ScheduleSettings)
    ensures
        r.schedule_type == spec_schedule_type(opt_view(req.schedule_type)),
        r.enabled == match req.enabled {
            Some(e) => if e {
                1i32
            } else {
                0i32
            },
            None => match existing {
                Some(x) => x.enabled,
                None => 1i32,
            },
        },
        r.schedule_hour == match req.schedule_hour {
            Some(h) => h,
            None => match existing {
                Some(x) => x.schedule_hour,
                None => 2i32,
            },
        },
        r.schedule_day == match req.schedule_day {
            Some(d) => Some(d),
            None => match existing {
                Some(x) => x.schedule_day,
                None => None,
            },
        },
        r.retention_count == match req.retention_count {
            Some(n) => n,
            None => match existing {
                Some(x) => x.retention_count,
                None => 5i32,
            },
        },
{
    let st = schedule_type(&req.schedule_type);
    match existing {
        Some(x) => ScheduleSettings {
            enabled: match req.enabled {
                Some(e) => if e {
                    1
                } else {
                    0
                },
                None => x.enabled,
            },
            schedule_type: st,
            schedule_hour: match req.schedule_hour {
                Some(h) => h,
                None => x.schedule_hour,
            },
            schedule_day: match req.schedule_day {
                Some(d) => Some(d),
                None => x.schedule_day,
            },
            retention_count: match req.retention_count {
                Some(n) => n,
                None => x.retention_count,
            },
        },
        None => ScheduleSettings {
            enabled: match req.enabled {
                Some(e) => if e {
                    1
                } else {
                    0
                },
                None => 1,
            },
            schedule_type: st,
            schedule_hour: match req.schedule_hour {
                Some(h) => h,
                None => 2,
            },
            schedule_day: req.schedule_day,
            retention_count: match req.retention_count {
                Some(n) => n,
                None => 5,
            },
        },
    }
}

} // verus!
