use vstd::prelude::*;

use crate::entities::common::{clone_text, empty_text, text_is};
use crate::query::{build_plan, order_by_name, spec_plan, options_shape, ListingDefaults, OrderDirection, QueryOptions, QueryPlan};
use crate::repository::{Paging, Record};
use crate::text::text_eq;

verus! {

/// A stored record of an error of the engine.
pub struct ErrorLog {
    pub id: i32,
    pub creation_date: i64,
    pub file_path: String,
    pub line_number: String,
    pub function_name: String,
    pub request: String,
    pub error_type: String,
    pub error_details: String,
}

/// A request on the error logs table: every field that is set selects or changes.
pub struct ErrorLogRequest {
    pub id: Option<i32>,
    pub file_path: Option<String>,
    pub line_number: Option<String>,
    pub function_name: Option<String>,
    pub request: Option<String>,
    pub error_type: Option<String>,
    pub error_details: Option<String>,
}

/// The columns of the error logs table.
#[derive(Debug, Clone, Copy, PartialEq, Eq, Structural)]
pub enum ErrorLogColumn {
    Id,
    CreationDate,
    FilePath,
    LineNumber,
    FunctionName,
    Request,
    ErrorType,
    ErrorDetails,
}

/// The column a listing may be ordered by, from its name.
pub open spec fn spec_parse_order_column(value: Seq<char>) -> Option<ErrorLogColumn> {
    if value == "id"@ {
        Some(ErrorLogColumn::Id)
    } else if value == "creation_date"@ {
        Some(ErrorLogColumn::CreationDate)
    } else if value == "file_path"@ {
        Some(ErrorLogColumn::FilePath)
    } else if value == "line_number"@ {
        Some(ErrorLogColumn::LineNumber)
    } else if value == "function_name"@ {
        Some(ErrorLogColumn::FunctionName)
    } else if value == "request"@ {
        Some(ErrorLogColumn::Request)
    } else if value == "error_type"@ {
        Some(ErrorLogColumn::ErrorType)
    } else if value == "error_details"@ {
        Some(ErrorLogColumn::ErrorDetails)
    } else {
        None
    }
}

/// Each column name reads as its own column.
pub proof fn lemma_column_names_read_back()
    ensures
        spec_parse_order_column("id"@) == Some(ErrorLogColumn::Id),
        spec_parse_order_column("creation_date"@) == Some(ErrorLogColumn::CreationDate),
        spec_parse_order_column("file_path"@) == Some(ErrorLogColumn::FilePath),
        spec_parse_order_column("line_number"@) == Some(ErrorLogColumn::LineNumber),
        spec_parse_order_column("function_name"@) == Some(ErrorLogColumn::FunctionName),
        spec_parse_order_column("request"@) == Some(ErrorLogColumn::Request),
        spec_parse_order_column("error_type"@) == Some(ErrorLogColumn::ErrorType),
        spec_parse_order_column("error_details"@) == Some(ErrorLogColumn::ErrorDetails),
{
    reveal_strlit("id");
    assert("id"@.len() == 2);
    reveal_strlit("creation_date");
    assert("creation_date"@.len() == 13);
    reveal_strlit("file_path");
    assert("file_path"@.len() == 9);
    reveal_strlit("line_number");
    assert("line_number"@.len() == 11);
    reveal_strlit("function_name");
    assert("function_name"@.len() == 13);
    reveal_strlit("request");
    assert("request"@.len() == 7);
    reveal_strlit("error_type");
    assert("error_type"@.len() == 10);
    reveal_strlit("error_details");
    assert("error_details"@.len() == 13);
    assert("function_name"@[0] != "creation_date"@[0]);
    assert("error_details"@[0] != "creation_date"@[0]);
    assert("error_details"@[0] != "function_name"@[0]);
}

/// Reads the name of a column a listing may be ordered by; other names are ignored.
pub fn parse_order_column(value: &str) -> (res: Option<ErrorLogColumn>)
    ensures
        res == spec_parse_order_column(value@),
{
    if text_eq(value, "id") {
        Some(ErrorLogColumn::Id)
    } else if text_eq(value, "creation_date") {
        Some(ErrorLogColumn::CreationDate)
    } else if text_eq(value, "file_path") {
        Some(ErrorLogColumn::FilePath)
    } else if text_eq(value, "line_number") {
        Some(ErrorLogColumn::LineNumber)
    } else if text_eq(value, "function_name") {
        Some(ErrorLogColumn::FunctionName)
    } else if text_eq(value, "request") {
        Some(ErrorLogColumn::Request)
    } else if text_eq(value, "error_type") {
        Some(ErrorLogColumn::ErrorType)
    } else if text_eq(value, "error_details") {
        Some(ErrorLogColumn::ErrorDetails)
    } else {
        None
    }
}

/// How the error logs listing reads its table before the request's options apply.
pub open spec fn spec_listing_defaults() -> ListingDefaults<ErrorLogColumn> {
    ListingDefaults { limit: Some(20u64), primary: Some((ErrorLogColumn::Id, OrderDirection::Desc)), direction: OrderDirection::Desc }
}

pub fn listing_defaults() -> (res: ListingDefaults<ErrorLogColumn>)
    ensures
        res == spec_listing_defaults(),
{
    ListingDefaults { limit: Some(20u64), primary: Some((ErrorLogColumn::Id, OrderDirection::Desc)), direction: OrderDirection::Desc }
}

/// The plan of a listing of the error logs table with these options.
pub fn plan_query(query: &Option<QueryOptions>) -> (res: QueryPlan<ErrorLogColumn>)
    ensures
        (res.limit, res.offset, res.ordering@) == spec_plan(
            spec_listing_defaults(),
            options_shape(*query),
            match query {
                Some(q) => match q.order_by {
                    Some(name) => spec_parse_order_column(name@),
                    None => None,
                },
                None => None,
            },
        ),
{
    let column = match order_by_name(query) {
        Some(name) => parse_order_column(name),
        None => None,
    };
    build_plan(&listing_defaults(), query, column)
}

/// Whether `r` is the record an insert request creates under id `id` at time `now`: unset fields take their defaults; the creation time is `now`.
pub open spec fn spec_is_new_record(r: ErrorLog, req: ErrorLogRequest, id: i32, now: i64) -> bool {
    &&& r.id == (id)
    &&& r.creation_date == (now)
    &&& r.file_path@ == (match req.file_path { Some(v) => v@, None => Seq::<char>::empty() })
    &&& r.line_number@ == (match req.line_number { Some(v) => v@, None => Seq::<char>::empty() })
    &&& r.function_name@ == (match req.function_name { Some(v) => v@, None => Seq::<char>::empty() })
    &&& r.request@ == (match req.request { Some(v) => v@, None => Seq::<char>::empty() })
    &&& r.error_type@ == (match req.error_type { Some(v) => v@, None => Seq::<char>::empty() })
    &&& r.error_details@ == (match req.error_details { Some(v) => v@, None => Seq::<char>::empty() })
}

pub fn new_record(req: &ErrorLogRequest, id: i32, now: i64) -> (res: ErrorLog)
    ensures
        spec_is_new_record(res, *req, id, now),
{
    ErrorLog {
        id: id,
        creation_date: now,
        file_path: match &req.file_path { Some(v) => v.clone(), None => empty_text() },
        line_number: match &req.line_number { Some(v) => v.clone(), None => empty_text() },
        function_name: match &req.function_name { Some(v) => v.clone(), None => empty_text() },
        request: match &req.request { Some(v) => v.clone(), None => empty_text() },
        error_type: match &req.error_type { Some(v) => v.clone(), None => empty_text() },
        error_details: match &req.error_details { Some(v) => v.clone(), None => empty_text() },
    }
}

/// A new record has the id it is given, each field an insert request sets
/// at the request's value and each other field at its default (the dates the
/// table fills at the time of the insert).
pub proof fn lemma_new_record_fields(r: ErrorLog, req: ErrorLogRequest, id: i32, now: i64)
    requires
        spec_is_new_record(r, req, id, now),
    ensures
        r.id == id,
        r.creation_date == now,
        req.file_path matches Some(v) ==> r.file_path@ == v@,
        req.file_path is None ==> r.file_path@ == Seq::<char>::empty(),
        req.line_number matches Some(v) ==> r.line_number@ == v@,
        req.line_number is None ==> r.line_number@ == Seq::<char>::empty(),
        req.function_name matches Some(v) ==> r.function_name@ == v@,
        req.function_name is None ==> r.function_name@ == Seq::<char>::empty(),
        req.request matches Some(v) ==> r.request@ == v@,
        req.request is None ==> r.request@ == Seq::<char>::empty(),
        req.error_type matches Some(v) ==> r.error_type@ == v@,
        req.error_type is None ==> r.error_type@ == Seq::<char>::empty(),
        req.error_details matches Some(v) ==> r.error_details@ == v@,
        req.error_details is None ==> r.error_details@ == Seq::<char>::empty(),
{
}

/// Whether a single-record request selects `m` (the conditions of a lookup).
pub open spec fn spec_selects(m: ErrorLog, req: ErrorLogRequest) -> bool {
    &&& (match req.id { Some(v) => m.id == v, None => true })
}

/// Whether a listing request selects `m` (the conditions of a listing).
pub open spec fn spec_lists(m: ErrorLog, req: ErrorLogRequest) -> bool {
    true
}

/// A single-record request keeps only records that agree with it: a record it keeps has, in
/// each field it sets among `id`, the value the request sets
/// (where an empty or non-positive value sets no condition). The blank
/// request keeps every record, and a kept record is still kept when a field
/// of the request is set to that record's own value.
pub proof fn lemma_selects_filters(m: ErrorLog, req: ErrorLogRequest)
    ensures
        spec_selects(m, (ErrorLogRequest { id: None, file_path: None, line_number: None, function_name: None, request: None, error_type: None, error_details: None })),
        req.id matches Some(v) ==> (spec_selects(m, req) ==> m.id == v),
        spec_selects(m, req) ==> spec_selects(m, (ErrorLogRequest { id: Some(m.id), ..req })),
{
}

/// A listing request keeps every record, whatever the request.
pub proof fn lemma_lists_keeps_all(m: ErrorLog, req: ErrorLogRequest)
    ensures
        spec_lists(m, req),
{
}

/// `m` after an update request at time `now`: only the details can change.
pub open spec fn spec_apply_update(m: ErrorLog, req: ErrorLogRequest, now: i64) -> ErrorLog {
    ErrorLog {
        id: m.id,
        creation_date: m.creation_date,
        file_path: m.file_path,
        line_number: m.line_number,
        function_name: m.function_name,
        request: m.request,
        error_type: m.error_type,
        error_details: match req.error_details { Some(v) => v, None => m.error_details },
    }
}

/// An update request: each field the request sets among those it may change takes the
/// request's value, an unset one keeps the record's, the other fields stay as
/// they are (the update time becomes `now`), and doing it twice is doing it once.
pub proof fn lemma_apply_update_fields(m: ErrorLog, req: ErrorLogRequest, now: i64)
    ensures
        spec_apply_update(m, req, now).id == m.id,
        spec_apply_update(m, req, now).creation_date == m.creation_date,
        spec_apply_update(m, req, now).file_path == m.file_path,
        spec_apply_update(m, req, now).line_number == m.line_number,
        spec_apply_update(m, req, now).function_name == m.function_name,
        spec_apply_update(m, req, now).request == m.request,
        spec_apply_update(m, req, now).error_type == m.error_type,
        req.error_details matches Some(v) ==> spec_apply_update(m, req, now).error_details == v,
        req.error_details is None ==> spec_apply_update(m, req, now).error_details == m.error_details,
        spec_apply_update(spec_apply_update(m, req, now), req, now) == spec_apply_update(m, req, now),
{
}

/// Whether `r` is the record with every field at its default.
pub open spec fn spec_is_default(r: ErrorLog) -> bool {
    &&& r.id == 0i32
    &&& r.creation_date == 0i64
    &&& r.file_path@ == Seq::<char>::empty()
    &&& r.line_number@ == Seq::<char>::empty()
    &&& r.function_name@ == Seq::<char>::empty()
    &&& r.request@ == Seq::<char>::empty()
    &&& r.error_type@ == Seq::<char>::empty()
    &&& r.error_details@ == Seq::<char>::empty()
}

impl ErrorLog {
    /// The record with every field at its default.
    pub fn default_record() -> (res: Self)
        ensures
            spec_is_default(res),
    {
        ErrorLog {
            id: 0i32,
            creation_date: 0i64,
            file_path: empty_text(),
            line_number: empty_text(),
            function_name: empty_text(),
            request: empty_text(),
            error_type: empty_text(),
            error_details: empty_text(),
        }
    }

    pub fn duplicate(&self) -> (res: Self)
        ensures
            res == *self,
    {
        ErrorLog {
            id: self.id,
            creation_date: self.creation_date,
            file_path: self.file_path.clone(),
            line_number: self.line_number.clone(),
            function_name: self.function_name.clone(),
            request: self.request.clone(),
            error_type: self.error_type.clone(),
            error_details: self.error_details.clone(),
        }
    }

    /// This record after an update request at time `now`.
    pub fn apply_update(&self, req: &ErrorLogRequest, now: i64) -> (res: Self)
        ensures
            res == spec_apply_update(*self, *req, now),
    {
        ErrorLog {
            id: self.id,
            creation_date: self.creation_date,
            file_path: self.file_path.clone(),
            line_number: self.line_number.clone(),
            function_name: self.function_name.clone(),
            request: self.request.clone(),
            error_type: self.error_type.clone(),
            error_details: match &req.error_details { Some(v) => v.clone(), None => self.error_details.clone() },
        }
    }

    pub fn selects(&self, req: &ErrorLogRequest) -> (res: bool)
        ensures
            res == spec_selects(*self, *req),
    {
        (match req.id { Some(v) => self.id == v, None => true })
    }

    pub fn lists(&self, req: &ErrorLogRequest) -> (res: bool)
        ensures
            res == spec_lists(*self, *req),
    {
        true
    }

}

impl ErrorLogRequest {
    /// The request with no field set.
    pub fn blank() -> (res: Self)
        ensures
            res.id is None,
            res.file_path is None,
            res.line_number is None,
            res.function_name is None,
            res.request is None,
            res.error_type is None,
            res.error_details is None,
    {
        ErrorLogRequest { id: None, file_path: None, line_number: None, function_name: None, request: None, error_type: None, error_details: None }
    }

    pub fn duplicate(&self) -> (res: Self)
        ensures
            res == *self,
    {
        ErrorLogRequest {
            id: self.id,
            file_path: clone_text(&self.file_path),
            line_number: clone_text(&self.line_number),
            function_name: clone_text(&self.function_name),
            request: clone_text(&self.request),
            error_type: clone_text(&self.error_type),
            error_details: clone_text(&self.error_details),
        }
    }
}

/// Whether a lookup of the in-memory error logs table finds `m`: the record whose id is the request's (0 when it sets none).
pub open spec fn spec_mock_finds(m: ErrorLog, req: ErrorLogRequest) -> bool {
    &&& (m.id == (match req.id { Some(v) => v, None => 0i32 }))
}

/// Whether a listing of the in-memory error logs table keeps `m`: every record, whatever the request.
pub open spec fn spec_mock_lists(m: ErrorLog, req: ErrorLogRequest) -> bool {
    true
}

/// A lookup of the in-memory table finds exactly the record whose id is the
/// request's, and the record with id 0 when the request sets no id.
pub proof fn lemma_mock_finds_by_id(m: ErrorLog, req: ErrorLogRequest)
    ensures
        req.id matches Some(v) ==> (spec_mock_finds(m, req) <==> m.id == v),
        req.id is None ==> (spec_mock_finds(m, req) <==> m.id == 0),
{
}

/// A listing of the in-memory table keeps every record, whatever the request.
pub proof fn lemma_mock_lists_keeps_all(m: ErrorLog, req: ErrorLogRequest)
    ensures
        spec_mock_lists(m, req),
{
}

/// `m` after an update of the in-memory error logs table at time `now`: the request replaces `error_details` where it sets them.
pub open spec fn spec_mock_update(m: ErrorLog, req: ErrorLogRequest, now: i64) -> ErrorLog {
    ErrorLog {
        id: m.id,
        creation_date: m.creation_date,
        file_path: m.file_path,
        line_number: m.line_number,
        function_name: m.function_name,
        request: m.request,
        error_type: m.error_type,
        error_details: match req.error_details { Some(v) => v, None => m.error_details },
    }
}

/// An update of the in-memory table: each field the request sets among those it may change takes the
/// request's value, an unset one keeps the record's, the other fields stay as
/// they are (the update time becomes `now`), and doing it twice is doing it once.
pub proof fn lemma_mock_update_fields(m: ErrorLog, req: ErrorLogRequest, now: i64)
    ensures
        spec_mock_update(m, req, now).id == m.id,
        spec_mock_update(m, req, now).creation_date == m.creation_date,
        spec_mock_update(m, req, now).file_path == m.file_path,
        spec_mock_update(m, req, now).line_number == m.line_number,
        spec_mock_update(m, req, now).function_name == m.function_name,
        spec_mock_update(m, req, now).request == m.request,
        spec_mock_update(m, req, now).error_type == m.error_type,
        req.error_details matches Some(v) ==> spec_mock_update(m, req, now).error_details == v,
        req.error_details is None ==> spec_mock_update(m, req, now).error_details == m.error_details,
        spec_mock_update(spec_mock_update(m, req, now), req, now) == spec_mock_update(m, req, now),
{
}

impl ErrorLog {
    pub fn mock_finds(&self, req: &ErrorLogRequest) -> (res: bool)
        ensures
            res == spec_mock_finds(*self, *req),
    {
        (self.id == (match req.id { Some(v) => v, None => 0i32 }))
    }

    pub fn mock_lists(&self, req: &ErrorLogRequest) -> (res: bool)
        ensures
            res == spec_mock_lists(*self, *req),
    {
        true
    }

    pub fn mock_update(&self, req: &ErrorLogRequest, now: i64) -> (res: Self)
        ensures
            res == spec_mock_update(*self, *req, now),
    {
        ErrorLog {
            id: self.id,
            creation_date: self.creation_date,
            file_path: self.file_path.clone(),
            line_number: self.line_number.clone(),
            function_name: self.function_name.clone(),
            request: self.request.clone(),
            error_type: self.error_type.clone(),
            error_details: match &req.error_details { Some(v) => v.clone(), None => self.error_details.clone() },
        }
    }
}

/// Whether `r` is the record the in-memory error logs table creates for an insert
/// request when it holds `len` records, at time `now`: its id is the request's id, else 0;
/// the other fields as the rules of this table say.
pub open spec fn spec_mock_created(r: ErrorLog, req: ErrorLogRequest, len: nat, now: i64) -> bool {
    &&& r.id == (match req.id { Some(v) => v, None => 0i32 })
    &&& r.creation_date == now
    &&& r.file_path@ == (match req.file_path { Some(v) => v@, None => Seq::<char>::empty() })
    &&& r.line_number@ == (match req.line_number { Some(v) => v@, None => Seq::<char>::empty() })
    &&& r.function_name@ == (match req.function_name { Some(v) => v@, None => Seq::<char>::empty() })
    &&& r.request@ == (match req.request { Some(v) => v@, None => Seq::<char>::empty() })
    &&& r.error_type@ == (match req.error_type { Some(v) => v@, None => Seq::<char>::empty() })
    &&& r.error_details@ == (match req.error_details { Some(v) => v@, None => Seq::<char>::empty() })
}

/// A record the in-memory table creates has the id its rule gives (the request's id, else 0)
/// and each other field as the table's rules say: the request's value where it
/// sets one, else the default.
pub proof fn lemma_mock_created_fields(r: ErrorLog, req: ErrorLogRequest, len: nat, now: i64)
    requires
        len < 2147483647,
        spec_mock_created(r, req, len, now),
    ensures
        req.id matches Some(v) ==> r.id == v,
        req.id is None ==> r.id == 0,
        r.creation_date == now,
        req.file_path matches Some(v) ==> r.file_path@ == v@,
        req.file_path is None ==> r.file_path@ == Seq::<char>::empty(),
        req.line_number matches Some(v) ==> r.line_number@ == v@,
        req.line_number is None ==> r.line_number@ == Seq::<char>::empty(),
        req.function_name matches Some(v) ==> r.function_name@ == v@,
        req.function_name is None ==> r.function_name@ == Seq::<char>::empty(),
        req.request matches Some(v) ==> r.request@ == v@,
        req.request is None ==> r.request@ == Seq::<char>::empty(),
        req.error_type matches Some(v) ==> r.error_type@ == v@,
        req.error_type is None ==> r.error_type@ == Seq::<char>::empty(),
        req.error_details matches Some(v) ==> r.error_details@ == v@,
        req.error_details is None ==> r.error_details@ == Seq::<char>::empty(),
{
}

impl ErrorLog {
    pub fn mock_created(req: &ErrorLogRequest, len: usize, now: i64) -> (res: Self)
        requires
            len < 2147483647,
        ensures
            spec_mock_created(res, *req, len as nat, now),
    {
        ErrorLog {
            id: match req.id { Some(v) => v, None => 0i32 },
            creation_date: now,
            file_path: match &req.file_path { Some(v) => v.clone(), None => empty_text() },
            line_number: match &req.line_number { Some(v) => v.clone(), None => empty_text() },
            function_name: match &req.function_name { Some(v) => v.clone(), None => empty_text() },
            request: match &req.request { Some(v) => v.clone(), None => empty_text() },
            error_type: match &req.error_type { Some(v) => v.clone(), None => empty_text() },
            error_details: match &req.error_details { Some(v) => v.clone(), None => empty_text() },
        }
    }
}

impl Record for ErrorLog {
    type Request = ErrorLogRequest;

    open spec fn key(&self) -> i32 {
        self.id
    }

    open spec fn request_key(req: &ErrorLogRequest) -> Option<i32> {
        req.id
    }

    open spec fn spec_finds(&self, req: &ErrorLogRequest) -> bool {
        spec_mock_finds(*self, *req)
    }

    open spec fn spec_created(&self, req: &ErrorLogRequest, len: nat, now: i64) -> bool {
        spec_mock_created(*self, *req, len, now)
    }

    open spec fn spec_matches(&self, req: &ErrorLogRequest) -> bool {
        spec_mock_lists(*self, *req)
    }

    open spec fn spec_patched(&self, req: &ErrorLogRequest, now: i64) -> Self {
        spec_mock_update(*self, *req, now)
    }

    open spec fn paging() -> Paging {
        Paging::LimitOnly
    }

    open spec fn spec_missing_id_message() -> Seq<char> {
        "Invalid mock update id"@
    }

    fn record_id(&self) -> (id: i32) {
        self.id
    }

    fn request_id(req: &ErrorLogRequest) -> (id: Option<i32>) {
        req.id
    }

    fn finds(&self, req: &ErrorLogRequest) -> (b: bool) {
        self.mock_finds(req)
    }

    fn created(req: &ErrorLogRequest, len: usize, now: i64) -> (r: Self) {
        ErrorLog::mock_created(req, len, now)
    }

    fn matches(&self, req: &ErrorLogRequest) -> (b: bool) {
        self.mock_lists(req)
    }

    fn patched(&self, req: &ErrorLogRequest, now: i64) -> (r: Self) {
        self.mock_update(req, now)
    }

    fn listing_paging() -> (p: Paging) {
        Paging::LimitOnly
    }

    fn missing_id_message() -> (m: String) {
        String::from_str("Invalid mock update id")
    }

    fn duplicate(&self) -> (r: Self) {
        ErrorLog::duplicate(self)
    }

    proof fn lemma_patch_keeps_key(&self, req: &ErrorLogRequest, now: i64) {
    }
}

} // verus!
