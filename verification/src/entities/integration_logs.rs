use vstd::prelude::*;

use crate::entities::common::{clone_text, empty_text, text_is};
use crate::query::{build_plan, order_by_name, spec_plan, options_shape, ListingDefaults, OrderDirection, QueryOptions, QueryPlan};
use crate::repository::{Paging, Record};
use crate::text::text_eq;

verus! {

/// A stored record of one call to an outside service.
pub struct IntegrationLog {
    pub id: i32,
    pub creation_date: i64,
    pub integration_name: String,
    pub function_name: String,
    pub url: String,
    pub request: String,
    pub response: String,
    pub status_code: i32,
    pub error_message: String,
    pub execution_time_ms: i32,
}

/// A request on the integration logs table: every field that is set selects or changes.
pub struct IntegrationLogRequest {
    pub id: Option<i32>,
    pub creation_date: Option<i64>,
    pub integration_name: Option<String>,
    pub function_name: Option<String>,
    pub url: Option<String>,
    pub request: Option<String>,
    pub response: Option<String>,
    pub status_code: Option<i32>,
    pub error_message: Option<String>,
    pub execution_time_ms: Option<i32>,
}

/// The columns of the integration logs table.
#[derive(Debug, Clone, Copy, PartialEq, Eq, Structural)]
pub enum IntegrationLogColumn {
    Id,
    CreationDate,
    IntegrationName,
    FunctionName,
    Url,
    Request,
    Response,
    StatusCode,
    ErrorMessage,
    ExecutionTimeMs,
}

/// The column a listing may be ordered by, from its name.
pub open spec fn spec_parse_order_column(value: Seq<char>) -> Option<IntegrationLogColumn> {
    if value == "id"@ {
        Some(IntegrationLogColumn::Id)
    } else if value == "creation_date"@ {
        Some(IntegrationLogColumn::CreationDate)
    } else if value == "integration_name"@ {
        Some(IntegrationLogColumn::IntegrationName)
    } else if value == "function_name"@ {
        Some(IntegrationLogColumn::FunctionName)
    } else if value == "url"@ {
        Some(IntegrationLogColumn::Url)
    } else if value == "request"@ {
        Some(IntegrationLogColumn::Request)
    } else if value == "response"@ {
        Some(IntegrationLogColumn::Response)
    } else if value == "status_code"@ {
        Some(IntegrationLogColumn::StatusCode)
    } else if value == "error_message"@ {
        Some(IntegrationLogColumn::ErrorMessage)
    } else if value == "execution_time_ms"@ {
        Some(IntegrationLogColumn::ExecutionTimeMs)
    } else {
        None
    }
}

/// Each column name reads as its own column.
pub proof fn lemma_column_names_read_back()
    ensures
        spec_parse_order_column("id"@) == Some(IntegrationLogColumn::Id),
        spec_parse_order_column("creation_date"@) == Some(IntegrationLogColumn::CreationDate),
        spec_parse_order_column("integration_name"@) == Some(IntegrationLogColumn::IntegrationName),
        spec_parse_order_column("function_name"@) == Some(IntegrationLogColumn::FunctionName),
        spec_parse_order_column("url"@) == Some(IntegrationLogColumn::Url),
        spec_parse_order_column("request"@) == Some(IntegrationLogColumn::Request),
        spec_parse_order_column("response"@) == Some(IntegrationLogColumn::Response),
        spec_parse_order_column("status_code"@) == Some(IntegrationLogColumn::StatusCode),
        spec_parse_order_column("error_message"@) == Some(IntegrationLogColumn::ErrorMessage),
        spec_parse_order_column("execution_time_ms"@) == Some(IntegrationLogColumn::ExecutionTimeMs),
{
    reveal_strlit("id");
    assert("id"@.len() == 2);
    reveal_strlit("creation_date");
    assert("creation_date"@.len() == 13);
    reveal_strlit("integration_name");
    assert("integration_name"@.len() == 16);
    reveal_strlit("function_name");
    assert("function_name"@.len() == 13);
    reveal_strlit("url");
    assert("url"@.len() == 3);
    reveal_strlit("request");
    assert("request"@.len() == 7);
    reveal_strlit("response");
    assert("response"@.len() == 8);
    reveal_strlit("status_code");
    assert("status_code"@.len() == 11);
    reveal_strlit("error_message");
    assert("error_message"@.len() == 13);
    reveal_strlit("execution_time_ms");
    assert("execution_time_ms"@.len() == 17);
    assert("function_name"@[0] != "creation_date"@[0]);
    assert("error_message"@[0] != "creation_date"@[0]);
    assert("error_message"@[0] != "function_name"@[0]);
}

/// Reads the name of a column a listing may be ordered by; other names are ignored.
pub fn parse_order_column(value: &str) -> (res: Option<IntegrationLogColumn>)
    ensures
        res == spec_parse_order_column(value@),
{
    if text_eq(value, "id") {
        Some(IntegrationLogColumn::Id)
    } else if text_eq(value, "creation_date") {
        Some(IntegrationLogColumn::CreationDate)
    } else if text_eq(value, "integration_name") {
        Some(IntegrationLogColumn::IntegrationName)
    } else if text_eq(value, "function_name") {
        Some(IntegrationLogColumn::FunctionName)
    } else if text_eq(value, "url") {
        Some(IntegrationLogColumn::Url)
    } else if text_eq(value, "request") {
        Some(IntegrationLogColumn::Request)
    } else if text_eq(value, "response") {
        Some(IntegrationLogColumn::Response)
    } else if text_eq(value, "status_code") {
        Some(IntegrationLogColumn::StatusCode)
    } else if text_eq(value, "error_message") {
        Some(IntegrationLogColumn::ErrorMessage)
    } else if text_eq(value, "execution_time_ms") {
        Some(IntegrationLogColumn::ExecutionTimeMs)
    } else {
        None
    }
}

/// How the integration logs listing reads its table before the request's options apply.
pub open spec fn spec_listing_defaults() -> ListingDefaults<IntegrationLogColumn> {
    ListingDefaults { limit: Some(20u64), primary: Some((IntegrationLogColumn::Id, OrderDirection::Desc)), direction: OrderDirection::Desc }
}

pub fn listing_defaults() -> (res: ListingDefaults<IntegrationLogColumn>)
    ensures
        res == spec_listing_defaults(),
{
    ListingDefaults { limit: Some(20u64), primary: Some((IntegrationLogColumn::Id, OrderDirection::Desc)), direction: OrderDirection::Desc }
}

/// The plan of a listing of the integration logs table with these options.
pub fn plan_query(query: &Option<QueryOptions>) -> (res: QueryPlan<IntegrationLogColumn>)
    ensures
        (res.limit, res.offset, res.ordering@) == spec_plan(
            spec_listing_defaults(),
            options_shape(*query),
            match query {
                Some(q) => match q.order_by {
                    Some(name) => spec_parse_order_column(name@),
                    None => None,
                },
                None => None,
            },
        ),
{
    let column = match order_by_name(query) {
        Some(name) => parse_order_column(name),
        None => None,
    };
    build_plan(&listing_defaults(), query, column)
}

/// Whether `r` is the record an insert request creates under id `id` at time `now`: unset fields take their defaults; the creation time is the request's, or `now`.
pub open spec fn spec_is_new_record(r: IntegrationLog, req: IntegrationLogRequest, id: i32, now: i64) -> bool {
    &&& r.id == (id)
    &&& r.creation_date == (match req.creation_date { Some(v) => v, None => now })
    &&& r.integration_name@ == (match req.integration_name { Some(v) => v@, None => Seq::<char>::empty() })
    &&& r.function_name@ == (match req.function_name { Some(v) => v@, None => Seq::<char>::empty() })
    &&& r.url@ == (match req.url { Some(v) => v@, None => Seq::<char>::empty() })
    &&& r.request@ == (match req.request { Some(v) => v@, None => Seq::<char>::empty() })
    &&& r.response@ == (match req.response { Some(v) => v@, None => Seq::<char>::empty() })
    &&& r.status_code == (match req.status_code { Some(v) => v, None => 0i32 })
    &&& r.error_message@ == (match req.error_message { Some(v) => v@, None => Seq::<char>::empty() })
    &&& r.execution_time_ms == (match req.execution_time_ms { Some(v) => v, None => 0i32 })
}

pub fn new_record(req: &IntegrationLogRequest, id: i32, now: i64) -> (res: IntegrationLog)
    ensures
        spec_is_new_record(res, *req, id, now),
{
    IntegrationLog {
        id: id,
        creation_date: match req.creation_date { Some(v) => v, None => now },
        integration_name: match &req.integration_name { Some(v) => v.clone(), None => empty_text() },
        function_name: match &req.function_name { Some(v) => v.clone(), None => empty_text() },
        url: match &req.url { Some(v) => v.clone(), None => empty_text() },
        request: match &req.request { Some(v) => v.clone(), None => empty_text() },
        response: match &req.response { Some(v) => v.clone(), None => empty_text() },
        status_code: match req.status_code { Some(v) => v, None => 0i32 },
        error_message: match &req.error_message { Some(v) => v.clone(), None => empty_text() },
        execution_time_ms: match req.execution_time_ms { Some(v) => v, None => 0i32 },
    }
}

/// A new record has the id it is given, each field an insert request sets
/// at the request's value and each other field at its default (the dates the
/// table fills at the time of the insert).
pub proof fn lemma_new_record_fields(r: IntegrationLog, req: IntegrationLogRequest, id: i32, now: i64)
    requires
        spec_is_new_record(r, req, id, now),
    ensures
        r.id == id,
        req.creation_date matches Some(v) ==> r.creation_date == v,
        req.creation_date is None ==> r.creation_date == now,
        req.integration_name matches Some(v) ==> r.integration_name@ == v@,
        req.integration_name is None ==> r.integration_name@ == Seq::<char>::empty(),
        req.function_name matches Some(v) ==> r.function_name@ == v@,
        req.function_name is None ==> r.function_name@ == Seq::<char>::empty(),
        req.url matches Some(v) ==> r.url@ == v@,
        req.url is None ==> r.url@ == Seq::<char>::empty(),
        req.request matches Some(v) ==> r.request@ == v@,
        req.request is None ==> r.request@ == Seq::<char>::empty(),
        req.response matches Some(v) ==> r.response@ == v@,
        req.response is None ==> r.response@ == Seq::<char>::empty(),
        req.status_code matches Some(v) ==> r.status_code == v,
        req.status_code is None ==> r.status_code == 0i32,
        req.error_message matches Some(v) ==> r.error_message@ == v@,
        req.error_message is None ==> r.error_message@ == Seq::<char>::empty(),
        req.execution_time_ms matches Some(v) ==> r.execution_time_ms == v,
        req.execution_time_ms is None ==> r.execution_time_ms == 0i32,
{
}

/// Whether a single-record request selects `m` (the conditions of a lookup).
pub open spec fn spec_selects(m: IntegrationLog, req: IntegrationLogRequest) -> bool {
    &&& (match req.id { Some(v) => m.id == v, None => true })
}

/// Whether a listing request selects `m` (the conditions of a listing).
pub open spec fn spec_lists(m: IntegrationLog, req: IntegrationLogRequest) -> bool {
    &&& (match req.integration_name { Some(v) => m.integration_name@ == v@, None => true })
    &&& (match req.function_name { Some(v) => m.function_name@ == v@, None => true })
    &&& (match req.status_code { Some(v) => m.status_code == v, None => true })
}

/// A single-record request keeps only records that agree with it: a record it keeps has, in
/// each field it sets among `id`, the value the request sets
/// (where an empty or non-positive value sets no condition). The blank
/// request keeps every record, and a kept record is still kept when a field
/// of the request is set to that record's own value.
pub proof fn lemma_selects_filters(m: IntegrationLog, req: IntegrationLogRequest)
    ensures
        spec_selects(m, (IntegrationLogRequest { id: None, creation_date: None, integration_name: None, function_name: None, url: None, request: None, response: None, status_code: None, error_message: None, execution_time_ms: None })),
        req.id matches Some(v) ==> (spec_selects(m, req) ==> m.id == v),
        spec_selects(m, req) ==> spec_selects(m, (IntegrationLogRequest { id: Some(m.id), ..req })),
{
}

/// A listing request keeps only records that agree with it: a record it keeps has, in
/// each field it sets among `integration_name`, `function_name`, `status_code`, the value the request sets
/// (where an empty or non-positive value sets no condition). The blank
/// request keeps every record, and a kept record is still kept when a field
/// of the request is set to that record's own value.
pub proof fn lemma_lists_filters(m: IntegrationLog, req: IntegrationLogRequest)
    ensures
        spec_lists(m, (IntegrationLogRequest { id: None, creation_date: None, integration_name: None, function_name: None, url: None, request: None, response: None, status_code: None, error_message: None, execution_time_ms: None })),
        req.integration_name matches Some(v) ==> (spec_lists(m, req) ==> m.integration_name@ == v@),
        req.function_name matches Some(v) ==> (spec_lists(m, req) ==> m.function_name@ == v@),
        req.status_code matches Some(v) ==> (spec_lists(m, req) ==> m.status_code == v),
        spec_lists(m, req) ==> spec_lists(m, (IntegrationLogRequest { integration_name: Some(m.integration_name), ..req })),
        spec_lists(m, req) ==> spec_lists(m, (IntegrationLogRequest { function_name: Some(m.function_name), ..req })),
        spec_lists(m, req) ==> spec_lists(m, (IntegrationLogRequest { status_code: Some(m.status_code), ..req })),
{
}

/// `m` after an update request at time `now`: every field the request sets is replaced.
pub open spec fn spec_apply_update(m: IntegrationLog, req: IntegrationLogRequest, now: i64) -> IntegrationLog {
    IntegrationLog {
        id: m.id,
        creation_date: match req.creation_date { Some(v) => v, None => m.creation_date },
        integration_name: match req.integration_name { Some(v) => v, None => m.integration_name },
        function_name: match req.function_name { Some(v) => v, None => m.function_name },
        url: match req.url { Some(v) => v, None => m.url },
        request: match req.request { Some(v) => v, None => m.request },
        response: match req.response { Some(v) => v, None => m.response },
        status_code: match req.status_code { Some(v) => v, None => m.status_code },
        error_message: match req.error_message { Some(v) => v, None => m.error_message },
        execution_time_ms: match req.execution_time_ms { Some(v) => v, None => m.execution_time_ms },
    }
}

/// An update request: each field the request sets among those it may change takes the
/// request's value, an unset one keeps the record's, the other fields stay as
/// they are (the update time becomes `now`), and doing it twice is doing it once.
pub proof fn lemma_apply_update_fields(m: IntegrationLog, req: IntegrationLogRequest, now: i64)
    ensures
        spec_apply_update(m, req, now).id == m.id,
        req.creation_date matches Some(v) ==> spec_apply_update(m, req, now).creation_date == v,
        req.creation_date is None ==> spec_apply_update(m, req, now).creation_date == m.creation_date,
        req.integration_name matches Some(v) ==> spec_apply_update(m, req, now).integration_name == v,
        req.integration_name is None ==> spec_apply_update(m, req, now).integration_name == m.integration_name,
        req.function_name matches Some(v) ==> spec_apply_update(m, req, now).function_name == v,
        req.function_name is None ==> spec_apply_update(m, req, now).function_name == m.function_name,
        req.url matches Some(v) ==> spec_apply_update(m, req, now).url == v,
        req.url is None ==> spec_apply_update(m, req, now).url == m.url,
        req.request matches Some(v) ==> spec_apply_update(m, req, now).request == v,
        req.request is None ==> spec_apply_update(m, req, now).request == m.request,
        req.response matches Some(v) ==> spec_apply_update(m, req, now).response == v,
        req.response is None ==> spec_apply_update(m, req, now).response == m.response,
        req.status_code matches Some(v) ==> spec_apply_update(m, req, now).status_code == v,
        req.status_code is None ==> spec_apply_update(m, req, now).status_code == m.status_code,
        req.error_message matches Some(v) ==> spec_apply_update(m, req, now).error_message == v,
        req.error_message is None ==> spec_apply_update(m, req, now).error_message == m.error_message,
        req.execution_time_ms matches Some(v) ==> spec_apply_update(m, req, now).execution_time_ms == v,
        req.execution_time_ms is None ==> spec_apply_update(m, req, now).execution_time_ms == m.execution_time_ms,
        spec_apply_update(spec_apply_update(m, req, now), req, now) == spec_apply_update(m, req, now),
{
}

/// Whether `r` is the record with every field at its default.
pub open spec fn spec_is_default(r: IntegrationLog) -> bool {
    &&& r.id == 0i32
    &&& r.creation_date == 0i64
    &&& r.integration_name@ == Seq::<char>::empty()
    &&& r.function_name@ == Seq::<char>::empty()
    &&& r.url@ == Seq::<char>::empty()
    &&& r.request@ == Seq::<char>::empty()
    &&& r.response@ == Seq::<char>::empty()
    &&& r.status_code == 0i32
    &&& r.error_message@ == Seq::<char>::empty()
    &&& r.execution_time_ms == 0i32
}

impl IntegrationLog {
    /// The record with every field at its default.
    pub fn default_record() -> (res: Self)
        ensures
            spec_is_default(res),
    {
        IntegrationLog {
            id: 0i32,
            creation_date: 0i64,
            integration_name: empty_text(),
            function_name: empty_text(),
            url: empty_text(),
            request: empty_text(),
            response: empty_text(),
            status_code: 0i32,
            error_message: empty_text(),
            execution_time_ms: 0i32,
        }
    }

    pub fn duplicate(&self) -> (res: Self)
        ensures
            res == *self,
    {
        IntegrationLog {
            id: self.id,
            creation_date: self.creation_date,
            integration_name: self.integration_name.clone(),
            function_name: self.function_name.clone(),
            url: self.url.clone(),
            request: self.request.clone(),
            response: self.response.clone(),
            status_code: self.status_code,
            error_message: self.error_message.clone(),
            execution_time_ms: self.execution_time_ms,
        }
    }

    /// This record after an update request at time `now`.
    pub fn apply_update(&self, req: &IntegrationLogRequest, now: i64) -> (res: Self)
        ensures
            res == spec_apply_update(*self, *req, now),
    {
        IntegrationLog {
            id: self.id,
            creation_date: match req.creation_date { Some(v) => v, None => self.creation_date },
            integration_name: match &req.integration_name { Some(v) => v.clone(), None => self.integration_name.clone() },
            function_name: match &req.function_name { Some(v) => v.clone(), None => self.function_name.clone() },
            url: match &req.url { Some(v) => v.clone(), None => self.url.clone() },
            request: match &req.request { Some(v) => v.clone(), None => self.request.clone() },
            response: match &req.response { Some(v) => v.clone(), None => self.response.clone() },
            status_code: match req.status_code { Some(v) => v, None => self.status_code },
            error_message: match &req.error_message { Some(v) => v.clone(), None => self.error_message.clone() },
            execution_time_ms: match req.execution_time_ms { Some(v) => v, None => self.execution_time_ms },
        }
    }

    pub fn selects(&self, req: &IntegrationLogRequest) -> (res: bool)
        ensures
            res == spec_selects(*self, *req),
    {
        (match req.id { Some(v) => self.id == v, None => true })
    }

    pub fn lists(&self, req: &IntegrationLogRequest) -> (res: bool)
        ensures
            res == spec_lists(*self, *req),
    {
        (match &req.integration_name { Some(v) => text_is(&self.integration_name, v), None => true })
        && (match &req.function_name { Some(v) => text_is(&self.function_name, v), None => true })
        && (match req.status_code { Some(v) => self.status_code == v, None => true })
    }

}

impl IntegrationLogRequest {
    /// The request with no field set.
    pub fn blank() -> (res: Self)
        ensures
            res.id is None,
            res.creation_date is None,
            res.integration_name is None,
            res.function_name is None,
            res.url is None,
            res.request is None,
            res.response is None,
            res.status_code is None,
            res.error_message is None,
            res.execution_time_ms is None,
    {
        IntegrationLogRequest { id: None, creation_date: None, integration_name: None, function_name: None, url: None, request: None, response: None, status_code: None, error_message: None, execution_time_ms: None }
    }

    pub fn duplicate(&self) -> (res: Self)
        ensures
            res == *self,
    {
        IntegrationLogRequest {
            id: self.id,
            creation_date: self.creation_date,
            integration_name: clone_text(&self.integration_name),
            function_name: clone_text(&self.function_name),
            url: clone_text(&self.url),
            request: clone_text(&self.request),
            response: clone_text(&self.response),
            status_code: self.status_code,
            error_message: clone_text(&self.error_message),
            execution_time_ms: self.execution_time_ms,
        }
    }
}

/// Whether a lookup of the in-memory integration logs table finds `m`: the record whose id is the request's (0 when it sets none).
pub open spec fn spec_mock_finds(m: IntegrationLog, req: IntegrationLogRequest) -> bool {
    &&& (m.id == (match req.id { Some(v) => v, None => 0i32 }))
}

/// Whether a listing of the in-memory integration logs table keeps `m`: every record, whatever the request.
pub open spec fn spec_mock_lists(m: IntegrationLog, req: IntegrationLogRequest) -> bool {
    true
}

/// A lookup of the in-memory table finds exactly the record whose id is the
/// request's, and the record with id 0 when the request sets no id.
pub proof fn lemma_mock_finds_by_id(m: IntegrationLog, req: IntegrationLogRequest)
    ensures
        req.id matches Some(v) ==> (spec_mock_finds(m, req) <==> m.id == v),
        req.id is None ==> (spec_mock_finds(m, req) <==> m.id == 0),
{
}

/// A listing of the in-memory table keeps every record, whatever the request.
pub proof fn lemma_mock_lists_keeps_all(m: IntegrationLog, req: IntegrationLogRequest)
    ensures
        spec_mock_lists(m, req),
{
}

/// `m` after an update of the in-memory integration logs table at time `now`: the request replaces `creation_date`, `integration_name`, `function_name`, `url`, `request`, `response`, `status_code`, `error_message`, `execution_time_ms` where it sets them.
pub open spec fn spec_mock_update(m: IntegrationLog, req: IntegrationLogRequest, now: i64) -> IntegrationLog {
    IntegrationLog {
        id: m.id,
        creation_date: match req.creation_date { Some(v) => v, None => m.creation_date },
        integration_name: match req.integration_name { Some(v) => v, None => m.integration_name },
        function_name: match req.function_name { Some(v) => v, None => m.function_name },
        url: match req.url { Some(v) => v, None => m.url },
        request: match req.request { Some(v) => v, None => m.request },
        response: match req.response { Some(v) => v, None => m.response },
        status_code: match req.status_code { Some(v) => v, None => m.status_code },
        error_message: match req.error_message { Some(v) => v, None => m.error_message },
        execution_time_ms: match req.execution_time_ms { Some(v) => v, None => m.execution_time_ms },
    }
}

/// An update of the in-memory table: each field the request sets among those it may change takes the
/// request's value, an unset one keeps the record's, the other fields stay as
/// they are (the update time becomes `now`), and doing it twice is doing it once.
pub proof fn lemma_mock_update_fields(m: IntegrationLog, req: IntegrationLogRequest, now: i64)
    ensures
        spec_mock_update(m, req, now).id == m.id,
        req.creation_date matches Some(v) ==> spec_mock_update(m, req, now).creation_date == v,
        req.creation_date is None ==> spec_mock_update(m, req, now).creation_date == m.creation_date,
        req.integration_name matches Some(v) ==> spec_mock_update(m, req, now).integration_name == v,
        req.integration_name is None ==> spec_mock_update(m, req, now).integration_name == m.integration_name,
        req.function_name matches Some(v) ==> spec_mock_update(m, req, now).function_name == v,
        req.function_name is None ==> spec_mock_update(m, req, now).function_name == m.function_name,
        req.url matches Some(v) ==> spec_mock_update(m, req, now).url == v,
        req.url is None ==> spec_mock_update(m, req, now).url == m.url,
        req.request matches Some(v) ==> spec_mock_update(m, req, now).request == v,
        req.request is None ==> spec_mock_update(m, req, now).request == m.request,
        req.response matches Some(v) ==> spec_mock_update(m, req, now).response == v,
        req.response is None ==> spec_mock_update(m, req, now).response == m.response,
        req.status_code matches Some(v) ==> spec_mock_update(m, req, now).status_code == v,
        req.status_code is None ==> spec_mock_update(m, req, now).status_code == m.status_code,
        req.error_message matches Some(v) ==> spec_mock_update(m, req, now).error_message == v,
        req.error_message is None ==> spec_mock_update(m, req, now).error_message == m.error_message,
        req.execution_time_ms matches Some(v) ==> spec_mock_update(m, req, now).execution_time_ms == v,
        req.execution_time_ms is None ==> spec_mock_update(m, req, now).execution_time_ms == m.execution_time_ms,
        spec_mock_update(spec_mock_update(m, req, now), req, now) == spec_mock_update(m, req, now),
{
}

impl IntegrationLog {
    pub fn mock_finds(&self, req: &IntegrationLogRequest) -> (res: bool)
        ensures
            res == spec_mock_finds(*self, *req),
    {
        (self.id == (match req.id { Some(v) => v, None => 0i32 }))
    }

    pub fn mock_lists(&self, req: &IntegrationLogRequest) -> (res: bool)
        ensures
            res == spec_mock_lists(*self, *req),
    {
        true
    }

    pub fn mock_update(&self, req: &IntegrationLogRequest, now: i64) -> (res: Self)
        ensures
            res == spec_mock_update(*self, *req, now),
    {
        IntegrationLog {
            id: self.id,
            creation_date: match req.creation_date { Some(v) => v, None => self.creation_date },
            integration_name: match &req.integration_name { Some(v) => v.clone(), None => self.integration_name.clone() },
            function_name: match &req.function_name { Some(v) => v.clone(), None => self.function_name.clone() },
            url: match &req.url { Some(v) => v.clone(), None => self.url.clone() },
            request: match &req.request { Some(v) => v.clone(), None => self.request.clone() },
            response: match &req.response { Some(v) => v.clone(), None => self.response.clone() },
            status_code: match req.status_code { Some(v) => v, None => self.status_code },
            error_message: match &req.error_message { Some(v) => v.clone(), None => self.error_message.clone() },
            execution_time_ms: match req.execution_time_ms { Some(v) => v, None => self.execution_time_ms },
        }
    }
}

/// Whether `r` is the record the in-memory integration logs table creates for an insert
/// request when it holds `len` records, at time `now`: its id is the request's id, else one more than the number of records;
/// the other fields as the rules of this table say.
pub open spec fn spec_mock_created(r: IntegrationLog, req: IntegrationLogRequest, len: nat, now: i64) -> bool {
    &&& r.id == (match req.id { Some(v) => v, None => (len + 1) as i32 })
    &&& r.creation_date == (match req.creation_date { Some(v) => v, None => now })
    &&& r.integration_name@ == (match req.integration_name { Some(v) => v@, None => Seq::<char>::empty() })
    &&& r.function_name@ == (match req.function_name { Some(v) => v@, None => Seq::<char>::empty() })
    &&& r.url@ == (match req.url { Some(v) => v@, None => Seq::<char>::empty() })
    &&& r.request@ == (match req.request { Some(v) => v@, None => Seq::<char>::empty() })
    &&& r.response@ == (match req.response { Some(v) => v@, None => Seq::<char>::empty() })
    &&& r.status_code == (match req.status_code { Some(v) => v, None => 0i32 })
    &&& r.error_message@ == (match req.error_message { Some(v) => v@, None => Seq::<char>::empty() })
    &&& r.execution_time_ms == (match req.execution_time_ms { Some(v) => v, None => 0i32 })
}

/// A record the in-memory table creates has the id its rule gives (the request's id, else one more than the number of records)
/// and each other field as the table's rules say: the request's value where it
/// sets one, else the default.
pub proof fn lemma_mock_created_fields(r: IntegrationLog, req: IntegrationLogRequest, len: nat, now: i64)
    requires
        len < 2147483647,
        spec_mock_created(r, req, len, now),
    ensures
        req.id matches Some(v) ==> r.id == v,
        req.id is None ==> r.id == len + 1,
        req.creation_date matches Some(v) ==> r.creation_date == v,
        req.creation_date is None ==> r.creation_date == now,
        req.integration_name matches Some(v) ==> r.integration_name@ == v@,
        req.integration_name is None ==> r.integration_name@ == Seq::<char>::empty(),
        req.function_name matches Some(v) ==> r.function_name@ == v@,
        req.function_name is None ==> r.function_name@ == Seq::<char>::empty(),
        req.url matches Some(v) ==> r.url@ == v@,
        req.url is None ==> r.url@ == Seq::<char>::empty(),
        req.request matches Some(v) ==> r.request@ == v@,
        req.request is None ==> r.request@ == Seq::<char>::empty(),
        req.response matches Some(v) ==> r.response@ == v@,
        req.response is None ==> r.response@ == Seq::<char>::empty(),
        req.status_code matches Some(v) ==> r.status_code == v,
        req.status_code is None ==> r.status_code == 0i32,
        req.error_message matches Some(v) ==> r.error_message@ == v@,
        req.error_message is None ==> r.error_message@ == Seq::<char>::empty(),
        req.execution_time_ms matches Some(v) ==> r.execution_time_ms == v,
        req.execution_time_ms is None ==> r.execution_time_ms == 0i32,
{
}

impl IntegrationLog {
    pub fn mock_created(req: &IntegrationLogRequest, len: usize, now: i64) -> (res: Self)
        requires
            len < 2147483647,
        ensures
            spec_mock_created(res, *req, len as nat, now),
    {
        IntegrationLog {
            id: match req.id { Some(v) => v, None => (len as i32) + 1 },
            creation_date: match req.creation_date { Some(v) => v, None => now },
            integration_name: match &req.integration_name { Some(v) => v.clone(), None => empty_text() },
            function_name: match &req.function_name { Some(v) => v.clone(), None => empty_text() },
            url: match &req.url { Some(v) => v.clone(), None => empty_text() },
            request: match &req.request { Some(v) => v.clone(), None => empty_text() },
            response: match &req.response { Some(v) => v.clone(), None => empty_text() },
            status_code: match req.status_code { Some(v) => v, None => 0i32 },
            error_message: match &req.error_message { Some(v) => v.clone(), None => empty_text() },
            execution_time_ms: match req.execution_time_ms { Some(v) => v, None => 0i32 },
        }
    }
}

impl Record for IntegrationLog {
    type Request = IntegrationLogRequest;

    open spec fn key(&self) -> i32 {
        self.id
    }

    open spec fn request_key(req: &IntegrationLogRequest) -> Option<i32> {
        req.id
    }

    open spec fn spec_finds(&self, req: &IntegrationLogRequest) -> bool {
        spec_mock_finds(*self, *req)
    }

    open spec fn spec_created(&self, req: &IntegrationLogRequest, len: nat, now: i64) -> bool {
        spec_mock_created(*self, *req, len, now)
    }

    open spec fn spec_matches(&self, req: &IntegrationLogRequest) -> bool {
        spec_mock_lists(*self, *req)
    }

    open spec fn spec_patched(&self, req: &IntegrationLogRequest, now: i64) -> Self {
        spec_mock_update(*self, *req, now)
    }

    open spec fn paging() -> Paging {
        Paging::LimitThenOffset
    }

    open spec fn spec_missing_id_message() -> Seq<char> {
        "Invalid mock update id"@
    }

    fn record_id(&self) -> (id: i32) {
        self.id
    }

    fn request_id(req: &IntegrationLogRequest) -> (id: Option<i32>) {
        req.id
    }

    fn finds(&self, req: &IntegrationLogRequest) -> (b: bool) {
        self.mock_finds(req)
    }

    fn created(req: &IntegrationLogRequest, len: usize, now: i64) -> (r: Self) {
        IntegrationLog::mock_created(req, len, now)
    }

    fn matches(&self, req: &IntegrationLogRequest) -> (b: bool) {
        self.mock_lists(req)
    }

    fn patched(&self, req: &IntegrationLogRequest, now: i64) -> (r: Self) {
        self.mock_update(req, now)
    }

    fn listing_paging() -> (p: Paging) {
        Paging::LimitThenOffset
    }

    fn missing_id_message() -> (m: String) {
        String::from_str("Invalid mock update id")
    }

    fn duplicate(&self) -> (r: Self) {
        IntegrationLog::duplicate(self)
    }

    proof fn lemma_patch_keeps_key(&self, req: &IntegrationLogRequest, now: i64) {
    }
}

} // verus!
