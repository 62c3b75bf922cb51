use vstd::prelude::*;

use crate::entities::common::{clone_text, empty_text, text_is};
use crate::query::{build_plan, order_by_name, spec_plan, options_shape, ListingDefaults, OrderDirection, QueryOptions, QueryPlan};
use crate::repository::{Paging, Record};
use crate::text::text_eq;

verus! {

/// A stored background task, run every `cooldown` seconds after an initial `delay`.
pub struct Task {
    pub id: i32,
    pub nick: String,
    pub description: String,
    pub is_active: bool,
    pub cooldown: i64,
    pub delay: i64,
    pub last_update: i64,
    pub last_execution: Option<i64>,
}

/// A request on the tasks table: every field that is set selects or changes.
pub struct TaskRequest {
    pub id: Option<i32>,
    pub nick: Option<String>,
    pub description: Option<String>,
    pub is_active: Option<bool>,
    pub cooldown: Option<i64>,
    pub delay: Option<i64>,
    pub last_execution: Option<i64>,
}

/// The columns of the tasks table.
#[derive(Debug, Clone, Copy, PartialEq, Eq, Structural)]
pub enum TaskColumn {
    Id,
    Nick,
    Description,
    IsActive,
    Cooldown,
    Delay,
    LastUpdate,
    LastExecution,
}

/// The column a listing may be ordered by, from its name.
pub open spec fn spec_parse_order_column(value: Seq<char>) -> Option<TaskColumn> {
    if value == "id"@ {
        Some(TaskColumn::Id)
    } else if value == "nick"@ {
        Some(TaskColumn::Nick)
    } else if value == "description"@ {
        Some(TaskColumn::Description)
    } else if value == "is_active"@ {
        Some(TaskColumn::IsActive)
    } else if value == "cooldown"@ {
        Some(TaskColumn::Cooldown)
    } else if value == "delay"@ {
        Some(TaskColumn::Delay)
    } else if value == "last_update"@ {
        Some(TaskColumn::LastUpdate)
    } else if value == "last_execution"@ {
        Some(TaskColumn::LastExecution)
    } else {
        None
    }
}

/// Each column name reads as its own column.
pub proof fn lemma_column_names_read_back()
    ensures
        spec_parse_order_column("id"@) == Some(TaskColumn::Id),
        spec_parse_order_column("nick"@) == Some(TaskColumn::Nick),
        spec_parse_order_column("description"@) == Some(TaskColumn::Description),
        spec_parse_order_column("is_active"@) == Some(TaskColumn::IsActive),
        spec_parse_order_column("cooldown"@) == Some(TaskColumn::Cooldown),
        spec_parse_order_column("delay"@) == Some(TaskColumn::Delay),
        spec_parse_order_column("last_update"@) == Some(TaskColumn::LastUpdate),
        spec_parse_order_column("last_execution"@) == Some(TaskColumn::LastExecution),
{
    reveal_strlit("id");
    assert("id"@.len() == 2);
    reveal_strlit("nick");
    assert("nick"@.len() == 4);
    reveal_strlit("description");
    assert("description"@.len() == 11);
    reveal_strlit("is_active");
    assert("is_active"@.len() == 9);
    reveal_strlit("cooldown");
    assert("cooldown"@.len() == 8);
    reveal_strlit("delay");
    assert("delay"@.len() == 5);
    reveal_strlit("last_update");
    assert("last_update"@.len() == 11);
    reveal_strlit("last_execution");
    assert("last_execution"@.len() == 14);
    assert("last_update"@[0] != "description"@[0]);
}

/// Reads the name of a column a listing may be ordered by; other names are ignored.
pub fn parse_order_column(value: &str) -> (res: Option<TaskColumn>)
    ensures
        res == spec_parse_order_column(value@),
{
    if text_eq(value, "id") {
        Some(TaskColumn::Id)
    } else if text_eq(value, "nick") {
        Some(TaskColumn::Nick)
    } else if text_eq(value, "description") {
        Some(TaskColumn::Description)
    } else if text_eq(value, "is_active") {
        Some(TaskColumn::IsActive)
    } else if text_eq(value, "cooldown") {
        Some(TaskColumn::Cooldown)
    } else if text_eq(value, "delay") {
        Some(TaskColumn::Delay)
    } else if text_eq(value, "last_update") {
        Some(TaskColumn::LastUpdate)
    } else if text_eq(value, "last_execution") {
        Some(TaskColumn::LastExecution)
    } else {
        None
    }
}

/// How the tasks listing reads its table before the request's options apply.
pub open spec fn spec_listing_defaults() -> ListingDefaults<TaskColumn> {
    ListingDefaults { limit: None, primary: None, direction: OrderDirection::Asc }
}

pub fn listing_defaults() -> (res: ListingDefaults<TaskColumn>)
    ensures
        res == spec_listing_defaults(),
{
    ListingDefaults { limit: None, primary: None, direction: OrderDirection::Asc }
}

/// The plan of a listing of the tasks table with these options.
pub fn plan_query(query: &Option<QueryOptions>) -> (res: QueryPlan<TaskColumn>)
    ensures
        (res.limit, res.offset, res.ordering@) == spec_plan(
            spec_listing_defaults(),
            options_shape(*query),
            match query {
                Some(q) => match q.order_by {
                    Some(name) => spec_parse_order_column(name@),
                    None => None,
                },
                None => None,
            },
        ),
{
    let column = match order_by_name(query) {
        Some(name) => parse_order_column(name),
        None => None,
    };
    build_plan(&listing_defaults(), query, column)
}

/// Whether `r` is the record an insert request creates under id `id` at time `now`: unset fields take their defaults, except that a task is active unless the request says otherwise; the update time is `now`.
pub open spec fn spec_is_new_record(r: Task, req: TaskRequest, id: i32, now: i64) -> bool {
    &&& r.id == (id)
    &&& r.nick@ == (match req.nick { Some(v) => v@, None => Seq::<char>::empty() })
    &&& r.description@ == (match req.description { Some(v) => v@, None => Seq::<char>::empty() })
    &&& r.is_active == (match req.is_active { Some(v) => v, None => true })
    &&& r.cooldown == (match req.cooldown { Some(v) => v, None => 0i64 })
    &&& r.delay == (match req.delay { Some(v) => v, None => 0i64 })
    &&& r.last_update == (now)
    &&& r.last_execution == (req.last_execution)
}

pub fn new_record(req: &TaskRequest, id: i32, now: i64) -> (res: Task)
    ensures
        spec_is_new_record(res, *req, id, now),
{
    Task {
        id: id,
        nick: match &req.nick { Some(v) => v.clone(), None => empty_text() },
        description: match &req.description { Some(v) => v.clone(), None => empty_text() },
        is_active: match req.is_active { Some(v) => v, None => true },
        cooldown: match req.cooldown { Some(v) => v, None => 0i64 },
        delay: match req.delay { Some(v) => v, None => 0i64 },
        last_update: now,
        last_execution: req.last_execution,
    }
}

/// A new record has the id it is given, each field an insert request sets
/// at the request's value and each other field at its default (the dates the
/// table fills at the time of the insert).
pub proof fn lemma_new_record_fields(r: Task, req: TaskRequest, id: i32, now: i64)
    requires
        spec_is_new_record(r, req, id, now),
    ensures
        r.id == id,
        req.nick matches Some(v) ==> r.nick@ == v@,
        req.nick is None ==> r.nick@ == Seq::<char>::empty(),
        req.description matches Some(v) ==> r.description@ == v@,
        req.description is None ==> r.description@ == Seq::<char>::empty(),
        req.is_active matches Some(v) ==> r.is_active == v,
        req.is_active is None ==> r.is_active == true,
        req.cooldown matches Some(v) ==> r.cooldown == v,
        req.cooldown is None ==> r.cooldown == 0i64,
        req.delay matches Some(v) ==> r.delay == v,
        req.delay is None ==> r.delay == 0i64,
        r.last_update == now,
        r.last_execution == req.last_execution,
{
}

/// Whether a single-record request selects `m` (the conditions of a lookup).
pub open spec fn spec_selects(m: Task, req: TaskRequest) -> bool {
    &&& (match req.id { Some(v) => m.id == v, None => true })
}

/// Whether a listing request selects `m` (the conditions of a listing).
pub open spec fn spec_lists(m: Task, req: TaskRequest) -> bool {
    &&& (match req.id { Some(v) => m.id == v, None => true })
    &&& (match req.nick { Some(v) => m.nick@ == v@, None => true })
    &&& (match req.description { Some(v) => m.description@ == v@, None => true })
    &&& (match req.is_active { Some(v) => m.is_active == v, None => true })
    &&& (match req.cooldown { Some(v) => m.cooldown == v, None => true })
    &&& (match req.delay { Some(v) => m.delay == v, None => true })
}

/// A single-record request keeps only records that agree with it: a record it keeps has, in
/// each field it sets among `id`, the value the request sets
/// (where an empty or non-positive value sets no condition). The blank
/// request keeps every record, and a kept record is still kept when a field
/// of the request is set to that record's own value.
pub proof fn lemma_selects_filters(m: Task, req: TaskRequest)
    ensures
        spec_selects(m, (TaskRequest { id: None, nick: None, description: None, is_active: None, cooldown: None, delay: None, last_execution: None })),
        req.id matches Some(v) ==> (spec_selects(m, req) ==> m.id == v),
        spec_selects(m, req) ==> spec_selects(m, (TaskRequest { id: Some(m.id), ..req })),
{
}

/// A listing request keeps only records that agree with it: a record it keeps has, in
/// each field it sets among `id`, `nick`, `description`, `is_active`, `cooldown`, `delay`, the value the request sets
/// (where an empty or non-positive value sets no condition). The blank
/// request keeps every record, and a kept record is still kept when a field
/// of the request is set to that record's own value.
pub proof fn lemma_lists_filters(m: Task, req: TaskRequest)
    ensures
        spec_lists(m, (TaskRequest { id: None, nick: None, description: None, is_active: None, cooldown: None, delay: None, last_execution: None })),
        req.id matches Some(v) ==> (spec_lists(m, req) ==> m.id == v),
        req.nick matches Some(v) ==> (spec_lists(m, req) ==> m.nick@ == v@),
        req.description matches Some(v) ==> (spec_lists(m, req) ==> m.description@ == v@),
        req.is_active matches Some(v) ==> (spec_lists(m, req) ==> m.is_active == v),
        req.cooldown matches Some(v) ==> (spec_lists(m, req) ==> m.cooldown == v),
        req.delay matches Some(v) ==> (spec_lists(m, req) ==> m.delay == v),
        spec_lists(m, req) ==> spec_lists(m, (TaskRequest { id: Some(m.id), ..req })),
        spec_lists(m, req) ==> spec_lists(m, (TaskRequest { nick: Some(m.nick), ..req })),
        spec_lists(m, req) ==> spec_lists(m, (TaskRequest { description: Some(m.description), ..req })),
        spec_lists(m, req) ==> spec_lists(m, (TaskRequest { is_active: Some(m.is_active), ..req })),
        spec_lists(m, req) ==> spec_lists(m, (TaskRequest { cooldown: Some(m.cooldown), ..req })),
        spec_lists(m, req) ==> spec_lists(m, (TaskRequest { delay: Some(m.delay), ..req })),
{
}

/// `m` after an update request at time `now`: whether it is active, its timing and its last execution are replaced when the request sets them, and the update time becomes `now`.
pub open spec fn spec_apply_update(m: Task, req: TaskRequest, now: i64) -> Task {
    Task {
        id: m.id,
        nick: m.nick,
        description: m.description,
        is_active: match req.is_active { Some(v) => v, None => m.is_active },
        cooldown: match req.cooldown { Some(v) => v, None => m.cooldown },
        delay: match req.delay { Some(v) => v, None => m.delay },
        last_update: now,
        last_execution: match req.last_execution { Some(v) => Some(v), None => m.last_execution },
    }
}

/// An update request: each field the request sets among those it may change takes the
/// request's value, an unset one keeps the record's, the other fields stay as
/// they are (the update time becomes `now`), and doing it twice is doing it once.
pub proof fn lemma_apply_update_fields(m: Task, req: TaskRequest, now: i64)
    ensures
        spec_apply_update(m, req, now).id == m.id,
        spec_apply_update(m, req, now).nick == m.nick,
        spec_apply_update(m, req, now).description == m.description,
        req.is_active matches Some(v) ==> spec_apply_update(m, req, now).is_active == v,
        req.is_active is None ==> spec_apply_update(m, req, now).is_active == m.is_active,
        req.cooldown matches Some(v) ==> spec_apply_update(m, req, now).cooldown == v,
        req.cooldown is None ==> spec_apply_update(m, req, now).cooldown == m.cooldown,
        req.delay matches Some(v) ==> spec_apply_update(m, req, now).delay == v,
        req.delay is None ==> spec_apply_update(m, req, now).delay == m.delay,
        spec_apply_update(m, req, now).last_update == now,
        req.last_execution matches Some(v) ==> spec_apply_update(m, req, now).last_execution == Some(v),
        req.last_execution is None ==> spec_apply_update(m, req, now).last_execution == m.last_execution,
        spec_apply_update(spec_apply_update(m, req, now), req, now) == spec_apply_update(m, req, now),
{
}

/// Whether `r` is the record with every field at its default.
pub open spec fn spec_is_default(r: Task) -> bool {
    &&& r.id == 0i32
    &&& r.nick@ == Seq::<char>::empty()
    &&& r.description@ == Seq::<char>::empty()
    &&& r.is_active == false
    &&& r.cooldown == 0i64
    &&& r.delay == 0i64
    &&& r.last_update == 0i64
    &&& r.last_execution is None
}

impl Task {
    /// The record with every field at its default.
    pub fn default_record() -> (res: Self)
        ensures
            spec_is_default(res),
    {
        Task {
            id: 0i32,
            nick: empty_text(),
            description: empty_text(),
            is_active: false,
            cooldown: 0i64,
            delay: 0i64,
            last_update: 0i64,
            last_execution: None,
        }
    }

    pub fn duplicate(&self) -> (res: Self)
        ensures
            res == *self,
    {
        Task {
            id: self.id,
            nick: self.nick.clone(),
            description: self.description.clone(),
            is_active: self.is_active,
            cooldown: self.cooldown,
            delay: self.delay,
            last_update: self.last_update,
            last_execution: self.last_execution,
        }
    }

    /// This record after an update request at time `now`.
    pub fn apply_update(&self, req: &TaskRequest, now: i64) -> (res: Self)
        ensures
            res == spec_apply_update(*self, *req, now),
    {
        Task {
            id: self.id,
            nick: self.nick.clone(),
            description: self.description.clone(),
            is_active: match req.is_active { Some(v) => v, None => self.is_active },
            cooldown: match req.cooldown { Some(v) => v, None => self.cooldown },
            delay: match req.delay { Some(v) => v, None => self.delay },
            last_update: now,
            last_execution: match req.last_execution { Some(v) => Some(v), None => self.last_execution },
        }
    }

    pub fn selects(&self, req: &TaskRequest) -> (res: bool)
        ensures
            res == spec_selects(*self, *req),
    {
        (match req.id { Some(v) => self.id == v, None => true })
    }

    pub fn lists(&self, req: &TaskRequest) -> (res: bool)
        ensures
            res == spec_lists(*self, *req),
    {
        (match req.id { Some(v) => self.id == v, None => true })
        && (match &req.nick { Some(v) => text_is(&self.nick, v), None => true })
        && (match &req.description { Some(v) => text_is(&self.description, v), None => true })
        && (match req.is_active { Some(v) => self.is_active == v, None => true })
        && (match req.cooldown { Some(v) => self.cooldown == v, None => true })
        && (match req.delay { Some(v) => self.delay == v, None => true })
    }

}

impl TaskRequest {
    /// The request with no field set.
    pub fn blank() -> (res: Self)
        ensures
            res.id is None,
            res.nick is None,
            res.description is None,
            res.is_active is None,
            res.cooldown is None,
            res.delay is None,
            res.last_execution is None,
    {
        TaskRequest { id: None, nick: None, description: None, is_active: None, cooldown: None, delay: None, last_execution: None }
    }

    pub fn duplicate(&self) -> (res: Self)
        ensures
            res == *self,
    {
        TaskRequest {
            id: self.id,
            nick: clone_text(&self.nick),
            description: clone_text(&self.description),
            is_active: self.is_active,
            cooldown: self.cooldown,
            delay: self.delay,
            last_execution: self.last_execution,
        }
    }
}

/// Whether a lookup of the in-memory tasks table finds `m`: the record whose id is the request's (0 when it sets none).
pub open spec fn spec_mock_finds(m: Task, req: TaskRequest) -> bool {
    &&& (m.id == (match req.id { Some(v) => v, None => 0i32 }))
}

/// Whether a listing of the in-memory tasks table keeps `m`: every record, whatever the request.
pub open spec fn spec_mock_lists(m: Task, req: TaskRequest) -> bool {
    true
}

/// A lookup of the in-memory table finds exactly the record whose id is the
/// request's, and the record with id 0 when the request sets no id.
pub proof fn lemma_mock_finds_by_id(m: Task, req: TaskRequest)
    ensures
        req.id matches Some(v) ==> (spec_mock_finds(m, req) <==> m.id == v),
        req.id is None ==> (spec_mock_finds(m, req) <==> m.id == 0),
{
}

/// A listing of the in-memory table keeps every record, whatever the request.
pub proof fn lemma_mock_lists_keeps_all(m: Task, req: TaskRequest)
    ensures
        spec_mock_lists(m, req),
{
}

/// `m` after an update of the in-memory tasks table at time `now`: the request replaces `is_active`, `cooldown`, `delay` where it sets them.
pub open spec fn spec_mock_update(m: Task, req: TaskRequest, now: i64) -> Task {
    Task {
        id: m.id,
        nick: m.nick,
        description: m.description,
        is_active: match req.is_active { Some(v) => v, None => m.is_active },
        cooldown: match req.cooldown { Some(v) => v, None => m.cooldown },
        delay: match req.delay { Some(v) => v, None => m.delay },
        last_update: m.last_update,
        last_execution: m.last_execution,
    }
}

/// An update of the in-memory table: each field the request sets among those it may change takes the
/// request's value, an unset one keeps the record's, the other fields stay as
/// they are (the update time becomes `now`), and doing it twice is doing it once.
pub proof fn lemma_mock_update_fields(m: Task, req: TaskRequest, now: i64)
    ensures
        spec_mock_update(m, req, now).id == m.id,
        spec_mock_update(m, req, now).nick == m.nick,
        spec_mock_update(m, req, now).description == m.description,
        req.is_active matches Some(v) ==> spec_mock_update(m, req, now).is_active == v,
        req.is_active is None ==> spec_mock_update(m, req, now).is_active == m.is_active,
        req.cooldown matches Some(v) ==> spec_mock_update(m, req, now).cooldown == v,
        req.cooldown is None ==> spec_mock_update(m, req, now).cooldown == m.cooldown,
        req.delay matches Some(v) ==> spec_mock_update(m, req, now).delay == v,
        req.delay is None ==> spec_mock_update(m, req, now).delay == m.delay,
        spec_mock_update(m, req, now).last_update == m.last_update,
        spec_mock_update(m, req, now).last_execution == m.last_execution,
        spec_mock_update(spec_mock_update(m, req, now), req, now) == spec_mock_update(m, req, now),
{
}

impl Task {
    pub fn mock_finds(&self, req: &TaskRequest) -> (res: bool)
        ensures
            res == spec_mock_finds(*self, *req),
    {
        (self.id == (match req.id { Some(v) => v, None => 0i32 }))
    }

    pub fn mock_lists(&self, req: &TaskRequest) -> (res: bool)
        ensures
            res == spec_mock_lists(*self, *req),
    {
        true
    }

    pub fn mock_update(&self, req: &TaskRequest, now: i64) -> (res: Self)
        ensures
            res == spec_mock_update(*self, *req, now),
    {
        Task {
            id: self.id,
            nick: self.nick.clone(),
            description: self.description.clone(),
            is_active: match req.is_active { Some(v) => v, None => self.is_active },
            cooldown: match req.cooldown { Some(v) => v, None => self.cooldown },
            delay: match req.delay { Some(v) => v, None => self.delay },
            last_update: self.last_update,
            last_execution: self.last_execution,
        }
    }
}

/// Whether `r` is the record the in-memory tasks table creates for an insert
/// request when it holds `len` records, at time `now`: its id is the request's id, else 0;
/// the other fields as the rules of this table say.
pub open spec fn spec_mock_created(r: Task, req: TaskRequest, len: nat, now: i64) -> bool {
    &&& r.id == (match req.id { Some(v) => v, None => 0i32 })
    &&& r.nick@ == (match req.nick { Some(v) => v@, None => Seq::<char>::empty() })
    &&& r.description@ == (match req.description { Some(v) => v@, None => Seq::<char>::empty() })
    &&& r.is_active == (match req.is_active { Some(v) => v, None => true })
    &&& r.cooldown == (match req.cooldown { Some(v) => v, None => 0i64 })
    &&& r.delay == (match req.delay { Some(v) => v, None => 0i64 })
    &&& r.last_update == now
    &&& r.last_execution == req.last_execution
}

/// A record the in-memory table creates has the id its rule gives (the request's id, else 0)
/// and each other field as the table's rules say: the request's value where it
/// sets one, else the default.
pub proof fn lemma_mock_created_fields(r: Task, req: TaskRequest, len: nat, now: i64)
    requires
        len < 2147483647,
        spec_mock_created(r, req, len, now),
    ensures
        req.id matches Some(v) ==> r.id == v,
        req.id is None ==> r.id == 0,
        req.nick matches Some(v) ==> r.nick@ == v@,
        req.nick is None ==> r.nick@ == Seq::<char>::empty(),
        req.description matches Some(v) ==> r.description@ == v@,
        req.description is None ==> r.description@ == Seq::<char>::empty(),
        req.is_active matches Some(v) ==> r.is_active == v,
        req.is_active is None ==> r.is_active == true,
        req.cooldown matches Some(v) ==> r.cooldown == v,
        req.cooldown is None ==> r.cooldown == 0i64,
        req.delay matches Some(v) ==> r.delay == v,
        req.delay is None ==> r.delay == 0i64,
        r.last_update == now,
        r.last_execution == req.last_execution,
{
}

impl Task {
    pub fn mock_created(req: &TaskRequest, len: usize, now: i64) -> (res: Self)
        requires
            len < 2147483647,
        ensures
            spec_mock_created(res, *req, len as nat, now),
    {
        Task {
            id: match req.id { Some(v) => v, None => 0i32 },
            nick: match &req.nick { Some(v) => v.clone(), None => empty_text() },
            description: match &req.description { Some(v) => v.clone(), None => empty_text() },
            is_active: match req.is_active { Some(v) => v, None => true },
            cooldown: match req.cooldown { Some(v) => v, None => 0i64 },
            delay: match req.delay { Some(v) => v, None => 0i64 },
            last_update: now,
            last_execution: req.last_execution,
        }
    }
}

impl Record for Task {
    type Request = TaskRequest;

    open spec fn key(&self) -> i32 {
        self.id
    }

    open spec fn request_key(req: &TaskRequest) -> Option<i32> {
        req.id
    }

    open spec fn spec_finds(&self, req: &TaskRequest) -> bool {
        spec_mock_finds(*self, *req)
    }

    open spec fn spec_created(&self, req: &TaskRequest, len: nat, now: i64) -> bool {
        spec_mock_created(*self, *req, len, now)
    }

    open spec fn spec_matches(&self, req: &TaskRequest) -> bool {
        spec_mock_lists(*self, *req)
    }

    open spec fn spec_patched(&self, req: &TaskRequest, now: i64) -> Self {
        spec_mock_update(*self, *req, now)
    }

    open spec fn paging() -> Paging {
        Paging::LimitOnly
    }

    open spec fn spec_missing_id_message() -> Seq<char> {
        "Invalid mock update id"@
    }

    fn record_id(&self) -> (id: i32) {
        self.id
    }

    fn request_id(req: &TaskRequest) -> (id: Option<i32>) {
        req.id
    }

    fn finds(&self, req: &TaskRequest) -> (b: bool) {
        self.mock_finds(req)
    }

    fn created(req: &TaskRequest, len: usize, now: i64) -> (r: Self) {
        Task::mock_created(req, len, now)
    }

    fn matches(&self, req: &TaskRequest) -> (b: bool) {
        self.mock_lists(req)
    }

    fn patched(&self, req: &TaskRequest, now: i64) -> (r: Self) {
        self.mock_update(req, now)
    }

    fn listing_paging() -> (p: Paging) {
        Paging::LimitOnly
    }

    fn missing_id_message() -> (m: String) {
        String::from_str("Invalid mock update id")
    }

    fn duplicate(&self) -> (r: Self) {
        Task::duplicate(self)
    }

    proof fn lemma_patch_keeps_key(&self, req: &TaskRequest, now: i64) {
    }
}

} // verus!
