use vstd::prelude::*;

use crate::entities::common::{clone_text, empty_text, text_is};
use crate::query::{build_plan, order_by_name, spec_plan, options_shape, ListingDefaults, OrderDirection, QueryOptions, QueryPlan};
use crate::repository::{Paging, Record};
use crate::text::text_eq;

verus! {

/// A stored snapshot of an environment's execution metrics. Durations are in milliseconds.
pub struct Metric {
    pub id: i32,
    pub creation_date: i64,
    pub executions_ok: i64,
    pub executions_err: i64,
    pub total_execution_time: i64,
    pub max_execution_time: i64,
    pub slowest_duration: i64,
    pub active_posting: i64,
    pub max_active_posting: i64,
    pub skipped_due_to_lock: i64,
    pub last_success: Option<i64>,
    pub last_error: Option<i64>,
    pub consecutive_errors: i64,
}

/// A request on the critical metrics table: every field that is set selects or changes.
pub struct MetricRequest {
    pub id: Option<i32>,
    pub creation_date: Option<i64>,
    pub executions_ok: Option<i64>,
    pub executions_err: Option<i64>,
    pub total_execution_time: Option<i64>,
    pub max_execution_time: Option<i64>,
    pub slowest_duration: Option<i64>,
    pub active_posting: Option<i64>,
    pub max_active_posting: Option<i64>,
    pub skipped_due_to_lock: Option<i64>,
    pub last_success: Option<i64>,
    pub last_error: Option<i64>,
    pub consecutive_errors: Option<i64>,
}

/// The columns of the critical metrics table.
#[derive(Debug, Clone, Copy, PartialEq, Eq, Structural)]
pub enum MetricColumn {
    Id,
    CreationDate,
    ExecutionsOk,
    ExecutionsErr,
    TotalExecutionTime,
    MaxExecutionTime,
    SlowestDuration,
    ActivePosting,
    MaxActivePosting,
    SkippedDueToLock,
    LastSuccess,
    LastError,
    ConsecutiveErrors,
}

/// The column a listing may be ordered by, from its name.
pub open spec fn spec_parse_order_column(value: Seq<char>) -> Option<MetricColumn> {
    if value == "id"@ {
        Some(MetricColumn::Id)
    } else if value == "creation_date"@ {
        Some(MetricColumn::CreationDate)
    } else if value == "executions_ok"@ {
        Some(MetricColumn::ExecutionsOk)
    } else if value == "executions_err"@ {
        Some(MetricColumn::ExecutionsErr)
    } else if value == "total_execution_time"@ {
        Some(MetricColumn::TotalExecutionTime)
    } else if value == "max_execution_time"@ {
        Some(MetricColumn::MaxExecutionTime)
    } else if value == "slowest_duration"@ {
        Some(MetricColumn::SlowestDuration)
    } else if value == "active_posting"@ {
        Some(MetricColumn::ActivePosting)
    } else if value == "max_active_posting"@ {
        Some(MetricColumn::MaxActivePosting)
    } else if value == "skipped_due_to_lock"@ {
        Some(MetricColumn::SkippedDueToLock)
    } else if value == "last_success"@ {
        Some(MetricColumn::LastSuccess)
    } else if value == "last_error"@ {
        Some(MetricColumn::LastError)
    } else if value == "consecutive_errors"@ {
        Some(MetricColumn::ConsecutiveErrors)
    } else {
        None
    }
}

/// Each column name reads as its own column.
pub proof fn lemma_column_names_read_back()
    ensures
        spec_parse_order_column("id"@) == Some(MetricColumn::Id),
        spec_parse_order_column("creation_date"@) == Some(MetricColumn::CreationDate),
        spec_parse_order_column("executions_ok"@) == Some(MetricColumn::ExecutionsOk),
        spec_parse_order_column("executions_err"@) == Some(MetricColumn::ExecutionsErr),
        spec_parse_order_column("total_execution_time"@) == Some(MetricColumn::TotalExecutionTime),
        spec_parse_order_column("max_execution_time"@) == Some(MetricColumn::MaxExecutionTime),
        spec_parse_order_column("slowest_duration"@) == Some(MetricColumn::SlowestDuration),
        spec_parse_order_column("active_posting"@) == Some(MetricColumn::ActivePosting),
        spec_parse_order_column("max_active_posting"@) == Some(MetricColumn::MaxActivePosting),
        spec_parse_order_column("skipped_due_to_lock"@) == Some(MetricColumn::SkippedDueToLock),
        spec_parse_order_column("last_success"@) == Some(MetricColumn::LastSuccess),
        spec_parse_order_column("last_error"@) == Some(MetricColumn::LastError),
        spec_parse_order_column("consecutive_errors"@) == Some(MetricColumn::ConsecutiveErrors),
{
    reveal_strlit("id");
    assert("id"@.len() == 2);
    reveal_strlit("creation_date");
    assert("creation_date"@.len() == 13);
    reveal_strlit("executions_ok");
    assert("executions_ok"@.len() == 13);
    reveal_strlit("executions_err");
    assert("executions_err"@.len() == 14);
    reveal_strlit("total_execution_time");
    assert("total_execution_time"@.len() == 20);
    reveal_strlit("max_execution_time");
    assert("max_execution_time"@.len() == 18);
    reveal_strlit("slowest_duration");
    assert("slowest_duration"@.len() == 16);
    reveal_strlit("active_posting");
    assert("active_posting"@.len() == 14);
    reveal_strlit("max_active_posting");
    assert("max_active_posting"@.len() == 18);
    reveal_strlit("skipped_due_to_lock");
    assert("skipped_due_to_lock"@.len() == 19);
    reveal_strlit("last_success");
    assert("last_success"@.len() == 12);
    reveal_strlit("last_error");
    assert("last_error"@.len() == 10);
    reveal_strlit("consecutive_errors");
    assert("consecutive_errors"@.len() == 18);
    assert("executions_ok"@[0] != "creation_date"@[0]);
    assert("active_posting"@[0] != "executions_err"@[0]);
    assert("max_active_posting"@[4] != "max_execution_time"@[4]);
    assert("consecutive_errors"@[0] != "max_execution_time"@[0]);
    assert("consecutive_errors"@[0] != "max_active_posting"@[0]);
}

/// Reads the name of a column a listing may be ordered by; other names are ignored.
pub fn parse_order_column(value: &str) -> (res: Option<MetricColumn>)
    ensures
        res == spec_parse_order_column(value@),
{
    if text_eq(value, "id") {
        Some(MetricColumn::Id)
    } else if text_eq(value, "creation_date") {
        Some(MetricColumn::CreationDate)
    } else if text_eq(value, "executions_ok") {
        Some(MetricColumn::ExecutionsOk)
    } else if text_eq(value, "executions_err") {
        Some(MetricColumn::ExecutionsErr)
    } else if text_eq(value, "total_execution_time") {
        Some(MetricColumn::TotalExecutionTime)
    } else if text_eq(value, "max_execution_time") {
        Some(MetricColumn::MaxExecutionTime)
    } else if text_eq(value, "slowest_duration") {
        Some(MetricColumn::SlowestDuration)
    } else if text_eq(value, "active_posting") {
        Some(MetricColumn::ActivePosting)
    } else if text_eq(value, "max_active_posting") {
        Some(MetricColumn::MaxActivePosting)
    } else if text_eq(value, "skipped_due_to_lock") {
        Some(MetricColumn::SkippedDueToLock)
    } else if text_eq(value, "last_success") {
        Some(MetricColumn::LastSuccess)
    } else if text_eq(value, "last_error") {
        Some(MetricColumn::LastError)
    } else if text_eq(value, "consecutive_errors") {
        Some(MetricColumn::ConsecutiveErrors)
    } else {
        None
    }
}

/// How the critical metrics listing reads its table before the request's options apply.
pub open spec fn spec_listing_defaults() -> ListingDefaults<MetricColumn> {
    ListingDefaults { limit: Some(20u64), primary: Some((MetricColumn::Id, OrderDirection::Desc)), direction: OrderDirection::Desc }
}

pub fn listing_defaults() -> (res: ListingDefaults<MetricColumn>)
    ensures
        res == spec_listing_defaults(),
{
    ListingDefaults { limit: Some(20u64), primary: Some((MetricColumn::Id, OrderDirection::Desc)), direction: OrderDirection::Desc }
}

/// The plan of a listing of the critical metrics table with these options.
pub fn plan_query(query: &Option<QueryOptions>) -> (res: QueryPlan<MetricColumn>)
    ensures
        (res.limit, res.offset, res.ordering@) == spec_plan(
            spec_listing_defaults(),
            options_shape(*query),
            match query {
                Some(q) => match q.order_by {
                    Some(name) => spec_parse_order_column(name@),
                    None => None,
                },
                None => None,
            },
        ),
{
    let column = match order_by_name(query) {
        Some(name) => parse_order_column(name),
        None => None,
    };
    build_plan(&listing_defaults(), query, column)
}

/// Whether `r` is the record an insert request creates under id `id` at time `now`: unset counters start at zero, the two dates are taken as they are; the creation time is `now`.
pub open spec fn spec_is_new_record(r: Metric, req: MetricRequest, id: i32, now: i64) -> bool {
    &&& r.id == (id)
    &&& r.creation_date == (now)
    &&& r.executions_ok == (match req.executions_ok { Some(v) => v, None => 0i64 })
    &&& r.executions_err == (match req.executions_err { Some(v) => v, None => 0i64 })
    &&& r.total_execution_time == (match req.total_execution_time { Some(v) => v, None => 0i64 })
    &&& r.max_execution_time == (match req.max_execution_time { Some(v) => v, None => 0i64 })
    &&& r.slowest_duration == (match req.slowest_duration { Some(v) => v, None => 0i64 })
    &&& r.active_posting == (match req.active_posting { Some(v) => v, None => 0i64 })
    &&& r.max_active_posting == (match req.max_active_posting { Some(v) => v, None => 0i64 })
    &&& r.skipped_due_to_lock == (match req.skipped_due_to_lock { Some(v) => v, None => 0i64 })
    &&& r.last_success == (req.last_success)
    &&& r.last_error == (req.last_error)
    &&& r.consecutive_errors == (match req.consecutive_errors { Some(v) => v, None => 0i64 })
}

pub fn new_record(req: &MetricRequest, id: i32, now: i64) -> (res: Metric)
    ensures
        spec_is_new_record(res, *req, id, now),
{
    Metric {
        id: id,
        creation_date: now,
        executions_ok: match req.executions_ok { Some(v) => v, None => 0i64 },
        executions_err: match req.executions_err { Some(v) => v, None => 0i64 },
        total_execution_time: match req.total_execution_time { Some(v) => v, None => 0i64 },
        max_execution_time: match req.max_execution_time { Some(v) => v, None => 0i64 },
        slowest_duration: match req.slowest_duration { Some(v) => v, None => 0i64 },
        active_posting: match req.active_posting { Some(v) => v, None => 0i64 },
        max_active_posting: match req.max_active_posting { Some(v) => v, None => 0i64 },
        skipped_due_to_lock: match req.skipped_due_to_lock { Some(v) => v, None => 0i64 },
        last_success: req.last_success,
        last_error: req.last_error,
        consecutive_errors: match req.consecutive_errors { Some(v) => v, None => 0i64 },
    }
}

/// A new record has the id it is given, each field an insert request sets
/// at the request's value and each other field at its default (the dates the
/// table fills at the time of the insert).
pub proof fn lemma_new_record_fields(r: Metric, req: MetricRequest, id: i32, now: i64)
    requires
        spec_is_new_record(r, req, id, now),
    ensures
        r.id == id,
        r.creation_date == now,
        req.executions_ok matches Some(v) ==> r.executions_ok == v,
        req.executions_ok is None ==> r.executions_ok == 0i64,
        req.executions_err matches Some(v) ==> r.executions_err == v,
        req.executions_err is None ==> r.executions_err == 0i64,
        req.total_execution_time matches Some(v) ==> r.total_execution_time == v,
        req.total_execution_time is None ==> r.total_execution_time == 0i64,
        req.max_execution_time matches Some(v) ==> r.max_execution_time == v,
        req.max_execution_time is None ==> r.max_execution_time == 0i64,
        req.slowest_duration matches Some(v) ==> r.slowest_duration == v,
        req.slowest_duration is None ==> r.slowest_duration == 0i64,
        req.active_posting matches Some(v) ==> r.active_posting == v,
        req.active_posting is None ==> r.active_posting == 0i64,
        req.max_active_posting matches Some(v) ==> r.max_active_posting == v,
        req.max_active_posting is None ==> r.max_active_posting == 0i64,
        req.skipped_due_to_lock matches Some(v) ==> r.skipped_due_to_lock == v,
        req.skipped_due_to_lock is None ==> r.skipped_due_to_lock == 0i64,
        r.last_success == req.last_success,
        r.last_error == req.last_error,
        req.consecutive_errors matches Some(v) ==> r.consecutive_errors == v,
        req.consecutive_errors is None ==> r.consecutive_errors == 0i64,
{
}

/// Whether a single-record request selects `m` (the conditions of a lookup).
pub open spec fn spec_selects(m: Metric, req: MetricRequest) -> bool {
    &&& (match req.id { Some(v) => v <= 0 || m.id == v, None => true })
}

/// Whether a listing request selects `m` (the conditions of a listing).
pub open spec fn spec_lists(m: Metric, req: MetricRequest) -> bool {
    &&& (match req.id { Some(v) => v <= 0 || m.id == v, None => true })
}

/// A single-record request keeps only records that agree with it: a record it keeps has, in
/// each field it sets among `id`, the value the request sets
/// (where an empty or non-positive value sets no condition). The blank
/// request keeps every record, and a kept record is still kept when a field
/// of the request is set to that record's own value.
pub proof fn lemma_selects_filters(m: Metric, req: MetricRequest)
    ensures
        spec_selects(m, (MetricRequest { id: None, creation_date: None, executions_ok: None, executions_err: None, total_execution_time: None, max_execution_time: None, slowest_duration: None, active_posting: None, max_active_posting: None, skipped_due_to_lock: None, last_success: None, last_error: None, consecutive_errors: None })),
        req.id matches Some(v) ==> (spec_selects(m, req) ==> v > 0 ==> m.id == v),
        spec_selects(m, req) ==> spec_selects(m, (MetricRequest { id: Some(m.id), ..req })),
{
}

/// A listing request keeps only records that agree with it: a record it keeps has, in
/// each field it sets among `id`, the value the request sets
/// (where an empty or non-positive value sets no condition). The blank
/// request keeps every record, and a kept record is still kept when a field
/// of the request is set to that record's own value.
pub proof fn lemma_lists_filters(m: Metric, req: MetricRequest)
    ensures
        spec_lists(m, (MetricRequest { id: None, creation_date: None, executions_ok: None, executions_err: None, total_execution_time: None, max_execution_time: None, slowest_duration: None, active_posting: None, max_active_posting: None, skipped_due_to_lock: None, last_success: None, last_error: None, consecutive_errors: None })),
        req.id matches Some(v) ==> (spec_lists(m, req) ==> v > 0 ==> m.id == v),
        spec_lists(m, req) ==> spec_lists(m, (MetricRequest { id: Some(m.id), ..req })),
{
}

/// `m` after an update request at time `now`: every field the request sets is replaced.
pub open spec fn spec_apply_update(m: Metric, req: MetricRequest, now: i64) -> Metric {
    Metric {
        id: m.id,
        creation_date: m.creation_date,
        executions_ok: match req.executions_ok { Some(v) => v, None => m.executions_ok },
        executions_err: match req.executions_err { Some(v) => v, None => m.executions_err },
        total_execution_time: match req.total_execution_time { Some(v) => v, None => m.total_execution_time },
        max_execution_time: match req.max_execution_time { Some(v) => v, None => m.max_execution_time },
        slowest_duration: match req.slowest_duration { Some(v) => v, None => m.slowest_duration },
        active_posting: match req.active_posting { Some(v) => v, None => m.active_posting },
        max_active_posting: match req.max_active_posting { Some(v) => v, None => m.max_active_posting },
        skipped_due_to_lock: match req.skipped_due_to_lock { Some(v) => v, None => m.skipped_due_to_lock },
        last_success: match req.last_success { Some(v) => Some(v), None => m.last_success },
        last_error: match req.last_error { Some(v) => Some(v), None => m.last_error },
        consecutive_errors: match req.consecutive_errors { Some(v) => v, None => m.consecutive_errors },
    }
}

/// An update request: each field the request sets among those it may change takes the
/// request's value, an unset one keeps the record's, the other fields stay as
/// they are (the update time becomes `now`), and doing it twice is doing it once.
pub proof fn lemma_apply_update_fields(m: Metric, req: MetricRequest, now: i64)
    ensures
        spec_apply_update(m, req, now).id == m.id,
        spec_apply_update(m, req, now).creation_date == m.creation_date,
        req.executions_ok matches Some(v) ==> spec_apply_update(m, req, now).executions_ok == v,
        req.executions_ok is None ==> spec_apply_update(m, req, now).executions_ok == m.executions_ok,
        req.executions_err matches Some(v) ==> spec_apply_update(m, req, now).executions_err == v,
        req.executions_err is None ==> spec_apply_update(m, req, now).executions_err == m.executions_err,
        req.total_execution_time matches Some(v) ==> spec_apply_update(m, req, now).total_execution_time == v,
        req.total_execution_time is None ==> spec_apply_update(m, req, now).total_execution_time == m.total_execution_time,
        req.max_execution_time matches Some(v) ==> spec_apply_update(m, req, now).max_execution_time == v,
        req.max_execution_time is None ==> spec_apply_update(m, req, now).max_execution_time == m.max_execution_time,
        req.slowest_duration matches Some(v) ==> spec_apply_update(m, req, now).slowest_duration == v,
        req.slowest_duration is None ==> spec_apply_update(m, req, now).slowest_duration == m.slowest_duration,
        req.active_posting matches Some(v) ==> spec_apply_update(m, req, now).active_posting == v,
        req.active_posting is None ==> spec_apply_update(m, req, now).active_posting == m.active_posting,
        req.max_active_posting matches Some(v) ==> spec_apply_update(m, req, now).max_active_posting == v,
        req.max_active_posting is None ==> spec_apply_update(m, req, now).max_active_posting == m.max_active_posting,
        req.skipped_due_to_lock matches Some(v) ==> spec_apply_update(m, req, now).skipped_due_to_lock == v,
        req.skipped_due_to_lock is None ==> spec_apply_update(m, req, now).skipped_due_to_lock == m.skipped_due_to_lock,
        req.last_success matches Some(v) ==> spec_apply_update(m, req, now).last_success == Some(v),
        req.last_success is None ==> spec_apply_update(m, req, now).last_success == m.last_success,
        req.last_error matches Some(v) ==> spec_apply_update(m, req, now).last_error == Some(v),
        req.last_error is None ==> spec_apply_update(m, req, now).last_error == m.last_error,
        req.consecutive_errors matches Some(v) ==> spec_apply_update(m, req, now).consecutive_errors == v,
        req.consecutive_errors is None ==> spec_apply_update(m, req, now).consecutive_errors == m.consecutive_errors,
        spec_apply_update(spec_apply_update(m, req, now), req, now) == spec_apply_update(m, req, now),
{
}

/// Whether `r` is the record with every field at its default.
pub open spec fn spec_is_default(r: Metric) -> bool {
    &&& r.id == 0i32
    &&& r.creation_date == 0i64
    &&& r.executions_ok == 0i64
    &&& r.executions_err == 0i64
    &&& r.total_execution_time == 0i64
    &&& r.max_execution_time == 0i64
    &&& r.slowest_duration == 0i64
    &&& r.active_posting == 0i64
    &&& r.max_active_posting == 0i64
    &&& r.skipped_due_to_lock == 0i64
    &&& r.last_success is None
    &&& r.last_error is None
    &&& r.consecutive_errors == 0i64
}

impl Metric {
    /// The record with every field at its default.
    pub fn default_record() -> (res: Self)
        ensures
            spec_is_default(res),
    {
        Metric {
            id: 0i32,
            creation_date: 0i64,
            executions_ok: 0i64,
            executions_err: 0i64,
            total_execution_time: 0i64,
            max_execution_time: 0i64,
            slowest_duration: 0i64,
            active_posting: 0i64,
            max_active_posting: 0i64,
            skipped_due_to_lock: 0i64,
            last_success: None,
            last_error: None,
            consecutive_errors: 0i64,
        }
    }

    pub fn duplicate(&self) -> (res: Self)
        ensures
            res == *self,
    {
        Metric {
            id: self.id,
            creation_date: self.creation_date,
            executions_ok: self.executions_ok,
            executions_err: self.executions_err,
            total_execution_time: self.total_execution_time,
            max_execution_time: self.max_execution_time,
            slowest_duration: self.slowest_duration,
            active_posting: self.active_posting,
            max_active_posting: self.max_active_posting,
            skipped_due_to_lock: self.skipped_due_to_lock,
            last_success: self.last_success,
            last_error: self.last_error,
            consecutive_errors: self.consecutive_errors,
        }
    }

    /// This record after an update request at time `now`.
    pub fn apply_update(&self, req: &MetricRequest, now: i64) -> (res: Self)
        ensures
            res == spec_apply_update(*self, *req, now),
    {
        Metric {
            id: self.id,
            creation_date: self.creation_date,
            executions_ok: match req.executions_ok { Some(v) => v, None => self.executions_ok },
            executions_err: match req.executions_err { Some(v) => v, None => self.executions_err },
            total_execution_time: match req.total_execution_time { Some(v) => v, None => self.total_execution_time },
            max_execution_time: match req.max_execution_time { Some(v) => v, None => self.max_execution_time },
            slowest_duration: match req.slowest_duration { Some(v) => v, None => self.slowest_duration },
            active_posting: match req.active_posting { Some(v) => v, None => self.active_posting },
            max_active_posting: match req.max_active_posting { Some(v) => v, None => self.max_active_posting },
            skipped_due_to_lock: match req.skipped_due_to_lock { Some(v) => v, None => self.skipped_due_to_lock },
            last_success: match req.last_success { Some(v) => Some(v), None => self.last_success },
            last_error: match req.last_error { Some(v) => Some(v), None => self.last_error },
            consecutive_errors: match req.consecutive_errors { Some(v) => v, None => self.consecutive_errors },
        }
    }

    pub fn selects(&self, req: &MetricRequest) -> (res: bool)
        ensures
            res == spec_selects(*self, *req),
    {
        (match req.id { Some(v) => v <= 0 || self.id == v, None => true })
    }

    pub fn lists(&self, req: &MetricRequest) -> (res: bool)
        ensures
            res == spec_lists(*self, *req),
    {
        (match req.id { Some(v) => v <= 0 || self.id == v, None => true })
    }

}

impl MetricRequest {
    /// The request with no field set.
    pub fn blank() -> (res: Self)
        ensures
            res.id is None,
            res.creation_date is None,
            res.executions_ok is None,
            res.executions_err is None,
            res.total_execution_time is None,
            res.max_execution_time is None,
            res.slowest_duration is None,
            res.active_posting is None,
            res.max_active_posting is None,
            res.skipped_due_to_lock is None,
            res.last_success is None,
            res.last_error is None,
            res.consecutive_errors is None,
    {
        MetricRequest { id: None, creation_date: None, executions_ok: None, executions_err: None, total_execution_time: None, max_execution_time: None, slowest_duration: None, active_posting: None, max_active_posting: None, skipped_due_to_lock: None, last_success: None, last_error: None, consecutive_errors: None }
    }

    pub fn duplicate(&self) -> (res: Self)
        ensures
            res == *self,
    {
        MetricRequest {
            id: self.id,
            creation_date: self.creation_date,
            executions_ok: self.executions_ok,
            executions_err: self.executions_err,
            total_execution_time: self.total_execution_time,
            max_execution_time: self.max_execution_time,
            slowest_duration: self.slowest_duration,
            active_posting: self.active_posting,
            max_active_posting: self.max_active_posting,
            skipped_due_to_lock: self.skipped_due_to_lock,
            last_success: self.last_success,
            last_error: self.last_error,
            consecutive_errors: self.consecutive_errors,
        }
    }
}

/// Whether a lookup of the in-memory critical metrics table finds `m`: the record whose id is the request's; a request without an id finds none.
pub open spec fn spec_mock_finds(m: Metric, req: MetricRequest) -> bool {
    &&& (match req.id { Some(v) => m.id == v, None => false })
}

/// Whether a listing of the in-memory critical metrics table keeps `m`: every record, whatever the request.
pub open spec fn spec_mock_lists(m: Metric, req: MetricRequest) -> bool {
    true
}

/// A lookup of the in-memory table finds exactly the record whose id is the
/// request's, and nothing when the request sets no id.
pub proof fn lemma_mock_finds_by_id(m: Metric, req: MetricRequest)
    ensures
        req.id matches Some(v) ==> (spec_mock_finds(m, req) <==> m.id == v),
        req.id is None ==> !spec_mock_finds(m, req),
{
}

/// A listing of the in-memory table keeps every record, whatever the request.
pub proof fn lemma_mock_lists_keeps_all(m: Metric, req: MetricRequest)
    ensures
        spec_mock_lists(m, req),
{
}

/// `m` after an update of the in-memory critical metrics table at time `now`: the request replaces `executions_ok`, `executions_err`, `total_execution_time`, `max_execution_time`, `slowest_duration`, `active_posting`, `max_active_posting`, `skipped_due_to_lock`, `last_success`, `last_error`, `consecutive_errors` where it sets them.
pub open spec fn spec_mock_update(m: Metric, req: MetricRequest, now: i64) -> Metric {
    Metric {
        id: m.id,
        creation_date: m.creation_date,
        executions_ok: match req.executions_ok { Some(v) => v, None => m.executions_ok },
        executions_err: match req.executions_err { Some(v) => v, None => m.executions_err },
        total_execution_time: match req.total_execution_time { Some(v) => v, None => m.total_execution_time },
        max_execution_time: match req.max_execution_time { Some(v) => v, None => m.max_execution_time },
        slowest_duration: match req.slowest_duration { Some(v) => v, None => m.slowest_duration },
        active_posting: match req.active_posting { Some(v) => v, None => m.active_posting },
        max_active_posting: match req.max_active_posting { Some(v) => v, None => m.max_active_posting },
        skipped_due_to_lock: match req.skipped_due_to_lock { Some(v) => v, None => m.skipped_due_to_lock },
        last_success: match req.last_success { Some(v) => Some(v), None => m.last_success },
        last_error: match req.last_error { Some(v) => Some(v), None => m.last_error },
        consecutive_errors: match req.consecutive_errors { Some(v) => v, None => m.consecutive_errors },
    }
}

/// An update of the in-memory table: each field the request sets among those it may change takes the
/// request's value, an unset one keeps the record's, the other fields stay as
/// they are (the update time becomes `now`), and doing it twice is doing it once.
pub proof fn lemma_mock_update_fields(m: Metric, req: MetricRequest, now: i64)
    ensures
        spec_mock_update(m, req, now).id == m.id,
        spec_mock_update(m, req, now).creation_date == m.creation_date,
        req.executions_ok matches Some(v) ==> spec_mock_update(m, req, now).executions_ok == v,
        req.executions_ok is None ==> spec_mock_update(m, req, now).executions_ok == m.executions_ok,
        req.executions_err matches Some(v) ==> spec_mock_update(m, req, now).executions_err == v,
        req.executions_err is None ==> spec_mock_update(m, req, now).executions_err == m.executions_err,
        req.total_execution_time matches Some(v) ==> spec_mock_update(m, req, now).total_execution_time == v,
        req.total_execution_time is None ==> spec_mock_update(m, req, now).total_execution_time == m.total_execution_time,
        req.max_execution_time matches Some(v) ==> spec_mock_update(m, req, now).max_execution_time == v,
        req.max_execution_time is None ==> spec_mock_update(m, req, now).max_execution_time == m.max_execution_time,
        req.slowest_duration matches Some(v) ==> spec_mock_update(m, req, now).slowest_duration == v,
        req.slowest_duration is None ==> spec_mock_update(m, req, now).slowest_duration == m.slowest_duration,
        req.active_posting matches Some(v) ==> spec_mock_update(m, req, now).active_posting == v,
        req.active_posting is None ==> spec_mock_update(m, req, now).active_posting == m.active_posting,
        req.max_active_posting matches Some(v) ==> spec_mock_update(m, req, now).max_active_posting == v,
        req.max_active_posting is None ==> spec_mock_update(m, req, now).max_active_posting == m.max_active_posting,
        req.skipped_due_to_lock matches Some(v) ==> spec_mock_update(m, req, now).skipped_due_to_lock == v,
        req.skipped_due_to_lock is None ==> spec_mock_update(m, req, now).skipped_due_to_lock == m.skipped_due_to_lock,
        req.last_success matches Some(v) ==> spec_mock_update(m, req, now).last_success == Some(v),
        req.last_success is None ==> spec_mock_update(m, req, now).last_success == m.last_success,
        req.last_error matches Some(v) ==> spec_mock_update(m, req, now).last_error == Some(v),
        req.last_error is None ==> spec_mock_update(m, req, now).last_error == m.last_error,
        req.consecutive_errors matches Some(v) ==> spec_mock_update(m, req, now).consecutive_errors == v,
        req.consecutive_errors is None ==> spec_mock_update(m, req, now).consecutive_errors == m.consecutive_errors,
        spec_mock_update(spec_mock_update(m, req, now), req, now) == spec_mock_update(m, req, now),
{
}

impl Metric {
    pub fn mock_finds(&self, req: &MetricRequest) -> (res: bool)
        ensures
            res == spec_mock_finds(*self, *req),
    {
        (match req.id { Some(v) => self.id == v, None => false })
    }

    pub fn mock_lists(&self, req: &MetricRequest) -> (res: bool)
        ensures
            res == spec_mock_lists(*self, *req),
    {
        true
    }

    pub fn mock_update(&self, req: &MetricRequest, now: i64) -> (res: Self)
        ensures
            res == spec_mock_update(*self, *req, now),
    {
        Metric {
            id: self.id,
            creation_date: self.creation_date,
            executions_ok: match req.executions_ok { Some(v) => v, None => self.executions_ok },
            executions_err: match req.executions_err { Some(v) => v, None => self.executions_err },
            total_execution_time: match req.total_execution_time { Some(v) => v, None => self.total_execution_time },
            max_execution_time: match req.max_execution_time { Some(v) => v, None => self.max_execution_time },
            slowest_duration: match req.slowest_duration { Some(v) => v, None => self.slowest_duration },
            active_posting: match req.active_posting { Some(v) => v, None => self.active_posting },
            max_active_posting: match req.max_active_posting { Some(v) => v, None => self.max_active_posting },
            skipped_due_to_lock: match req.skipped_due_to_lock { Some(v) => v, None => self.skipped_due_to_lock },
            last_success: match req.last_success { Some(v) => Some(v), None => self.last_success },
            last_error: match req.last_error { Some(v) => Some(v), None => self.last_error },
            consecutive_errors: match req.consecutive_errors { Some(v) => v, None => self.consecutive_errors },
        }
    }
}

/// Whether `r` is the record the in-memory critical metrics table creates for an insert
/// request when it holds `len` records, at time `now`: its id is the request's id when it is not 0, else one more than the number of records;
/// the other fields as the rules of this table say.
pub open spec fn spec_mock_created(r: Metric, req: MetricRequest, len: nat, now: i64) -> bool {
    &&& r.id == (if (match req.id { Some(v) => v, None => 0i32 }) == 0 { (len + 1) as i32 } else { req.id.unwrap() })
    &&& r.creation_date == (match req.creation_date { Some(v) => v, None => now })
    &&& r.executions_ok == (match req.executions_ok { Some(v) => v, None => 0i64 })
    &&& r.executions_err == (match req.executions_err { Some(v) => v, None => 0i64 })
    &&& r.total_execution_time == (match req.total_execution_time { Some(v) => v, None => 0i64 })
    &&& r.max_execution_time == (match req.max_execution_time { Some(v) => v, None => 0i64 })
    &&& r.slowest_duration == (match req.slowest_duration { Some(v) => v, None => 0i64 })
    &&& r.active_posting == (match req.active_posting { Some(v) => v, None => 0i64 })
    &&& r.max_active_posting == (match req.max_active_posting { Some(v) => v, None => 0i64 })
    &&& r.skipped_due_to_lock == (match req.skipped_due_to_lock { Some(v) => v, None => 0i64 })
    &&& r.last_success == req.last_success
    &&& r.last_error == req.last_error
    &&& r.consecutive_errors == (match req.consecutive_errors { Some(v) => v, None => 0i64 })
}

/// A record the in-memory table creates has the id its rule gives (the request's id when it is not 0, else one more than the number of records)
/// and each other field as the table's rules say: the request's value where it
/// sets one, else the default.
pub proof fn lemma_mock_created_fields(r: Metric, req: MetricRequest, len: nat, now: i64)
    requires
        len < 2147483647,
        spec_mock_created(r, req, len, now),
    ensures
        req.id matches Some(v) ==> (v != 0 ==> r.id == v),
        (req.id is None || req.id == Some(0i32)) ==> r.id == len + 1,
        req.creation_date matches Some(v) ==> r.creation_date == v,
        req.creation_date is None ==> r.creation_date == now,
        req.executions_ok matches Some(v) ==> r.executions_ok == v,
        req.executions_ok is None ==> r.executions_ok == 0i64,
        req.executions_err matches Some(v) ==> r.executions_err == v,
        req.executions_err is None ==> r.executions_err == 0i64,
        req.total_execution_time matches Some(v) ==> r.total_execution_time == v,
        req.total_execution_time is None ==> r.total_execution_time == 0i64,
        req.max_execution_time matches Some(v) ==> r.max_execution_time == v,
        req.max_execution_time is None ==> r.max_execution_time == 0i64,
        req.slowest_duration matches Some(v) ==> r.slowest_duration == v,
        req.slowest_duration is None ==> r.slowest_duration == 0i64,
        req.active_posting matches Some(v) ==> r.active_posting == v,
        req.active_posting is None ==> r.active_posting == 0i64,
        req.max_active_posting matches Some(v) ==> r.max_active_posting == v,
        req.max_active_posting is None ==> r.max_active_posting == 0i64,
        req.skipped_due_to_lock matches Some(v) ==> r.skipped_due_to_lock == v,
        req.skipped_due_to_lock is None ==> r.skipped_due_to_lock == 0i64,
        r.last_success == req.last_success,
        r.last_error == req.last_error,
        req.consecutive_errors matches Some(v) ==> r.consecutive_errors == v,
        req.consecutive_errors is None ==> r.consecutive_errors == 0i64,
{
}

impl Metric {
    pub fn mock_created(req: &MetricRequest, len: usize, now: i64) -> (res: Self)
        requires
            len < 2147483647,
        ensures
            spec_mock_created(res, *req, len as nat, now),
    {
        Metric {
            id: match req.id { Some(v) => if v == 0 { (len as i32) + 1 } else { v }, None => (len as i32) + 1 },
            creation_date: match req.creation_date { Some(v) => v, None => now },
            executions_ok: match req.executions_ok { Some(v) => v, None => 0i64 },
            executions_err: match req.executions_err { Some(v) => v, None => 0i64 },
            total_execution_time: match req.total_execution_time { Some(v) => v, None => 0i64 },
            max_execution_time: match req.max_execution_time { Some(v) => v, None => 0i64 },
            slowest_duration: match req.slowest_duration { Some(v) => v, None => 0i64 },
            active_posting: match req.active_posting { Some(v) => v, None => 0i64 },
            max_active_posting: match req.max_active_posting { Some(v) => v, None => 0i64 },
            skipped_due_to_lock: match req.skipped_due_to_lock { Some(v) => v, None => 0i64 },
            last_success: req.last_success,
            last_error: req.last_error,
            consecutive_errors: match req.consecutive_errors { Some(v) => v, None => 0i64 },
        }
    }
}

impl Record for Metric {
    type Request = MetricRequest;

    open spec fn key(&self) -> i32 {
        self.id
    }

    open spec fn request_key(req: &MetricRequest) -> Option<i32> {
        req.id
    }

    open spec fn spec_finds(&self, req: &MetricRequest) -> bool {
        spec_mock_finds(*self, *req)
    }

    open spec fn spec_created(&self, req: &MetricRequest, len: nat, now: i64) -> bool {
        spec_mock_created(*self, *req, len, now)
    }

    open spec fn spec_matches(&self, req: &MetricRequest) -> bool {
        spec_mock_lists(*self, *req)
    }

    open spec fn spec_patched(&self, req: &MetricRequest, now: i64) -> Self {
        spec_mock_update(*self, *req, now)
    }

    open spec fn paging() -> Paging {
        Paging::LimitThenOffset
    }

    open spec fn spec_missing_id_message() -> Seq<char> {
        "Missing id for mock update"@
    }

    fn record_id(&self) -> (id: i32) {
        self.id
    }

    fn request_id(req: &MetricRequest) -> (id: Option<i32>) {
        req.id
    }

    fn finds(&self, req: &MetricRequest) -> (b: bool) {
        self.mock_finds(req)
    }

    fn created(req: &MetricRequest, len: usize, now: i64) -> (r: Self) {
        Metric::mock_created(req, len, now)
    }

    fn matches(&self, req: &MetricRequest) -> (b: bool) {
        self.mock_lists(req)
    }

    fn patched(&self, req: &MetricRequest, now: i64) -> (r: Self) {
        self.mock_update(req, now)
    }

    fn listing_paging() -> (p: Paging) {
        Paging::LimitThenOffset
    }

    fn missing_id_message() -> (m: String) {
        String::from_str("Missing id for mock update")
    }

    fn duplicate(&self) -> (r: Self) {
        Metric::duplicate(self)
    }

    proof fn lemma_patch_keeps_key(&self, req: &MetricRequest, now: i64) {
    }
}

} // verus!
