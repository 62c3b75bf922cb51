use vstd::prelude::*;

use crate::entities::common::{clone_text, empty_text, text_is};
use crate::query::{build_plan, order_by_name, spec_plan, options_shape, ListingDefaults, OrderDirection, QueryOptions, QueryPlan};
use crate::repository::{Paging, Record};
use crate::text::text_eq;

verus! {

/// A stored strategy. Times are seconds since the epoch; cooldowns are in seconds.
pub struct Strategy {
    pub id: i32,
    pub name: String,
    pub is_active: bool,
    pub description: Option<String>,
    pub can_trade: bool,
    pub last_execution: Option<i64>,
    pub cooldown: Option<i32>,
    pub error_cooldown: Option<i32>,
    pub error_last_date: Option<i64>,
    pub last_update: i64,
}

/// A request on the strategies table: every field that is set selects or changes.
pub struct StrategyRequest {
    pub id: Option<i32>,
    pub name: Option<String>,
    pub is_active: Option<bool>,
    pub description: Option<String>,
    pub can_trade: Option<bool>,
    pub last_execution: Option<i64>,
    pub cooldown: Option<i32>,
    pub error_cooldown: Option<i32>,
    pub error_last_date: Option<i64>,
}

/// The columns of the strategies table.
#[derive(Debug, Clone, Copy, PartialEq, Eq, Structural)]
pub enum StrategyColumn {
    Id,
    Name,
    IsActive,
    Description,
    CanTrade,
    LastExecution,
    Cooldown,
    ErrorCooldown,
    ErrorLastDate,
    LastUpdate,
}

/// The column a listing may be ordered by, from its name.
pub open spec fn spec_parse_order_column(value: Seq<char>) -> Option<StrategyColumn> {
    if value == "id"@ {
        Some(StrategyColumn::Id)
    } else if value == "name"@ {
        Some(StrategyColumn::Name)
    } else if value == "is_active"@ {
        Some(StrategyColumn::IsActive)
    } else if value == "can_trade"@ {
        Some(StrategyColumn::CanTrade)
    } else if value == "description"@ {
        Some(StrategyColumn::Description)
    } else if value == "last_execution"@ {
        Some(StrategyColumn::LastExecution)
    } else if value == "cooldown"@ {
        Some(StrategyColumn::Cooldown)
    } else if value == "error_cooldown"@ {
        Some(StrategyColumn::ErrorCooldown)
    } else if value == "error_last_date"@ {
        Some(StrategyColumn::ErrorLastDate)
    } else if value == "last_update"@ {
        Some(StrategyColumn::LastUpdate)
    } else {
        None
    }
}

/// Each column name reads as its own column.
pub proof fn lemma_column_names_read_back()
    ensures
        spec_parse_order_column("id"@) == Some(StrategyColumn::Id),
        spec_parse_order_column("name"@) == Some(StrategyColumn::Name),
        spec_parse_order_column("is_active"@) == Some(StrategyColumn::IsActive),
        spec_parse_order_column("can_trade"@) == Some(StrategyColumn::CanTrade),
        spec_parse_order_column("description"@) == Some(StrategyColumn::Description),
        spec_parse_order_column("last_execution"@) == Some(StrategyColumn::LastExecution),
        spec_parse_order_column("cooldown"@) == Some(StrategyColumn::Cooldown),
        spec_parse_order_column("error_cooldown"@) == Some(StrategyColumn::ErrorCooldown),
        spec_parse_order_column("error_last_date"@) == Some(StrategyColumn::ErrorLastDate),
        spec_parse_order_column("last_update"@) == Some(StrategyColumn::LastUpdate),
{
    reveal_strlit("id");
    assert("id"@.len() == 2);
    reveal_strlit("name");
    assert("name"@.len() == 4);
    reveal_strlit("is_active");
    assert("is_active"@.len() == 9);
    reveal_strlit("can_trade");
    assert("can_trade"@.len() == 9);
    reveal_strlit("description");
    assert("description"@.len() == 11);
    reveal_strlit("last_execution");
    assert("last_execution"@.len() == 14);
    reveal_strlit("cooldown");
    assert("cooldown"@.len() == 8);
    reveal_strlit("error_cooldown");
    assert("error_cooldown"@.len() == 14);
    reveal_strlit("error_last_date");
    assert("error_last_date"@.len() == 15);
    reveal_strlit("last_update");
    assert("last_update"@.len() == 11);
    assert("can_trade"@[0] != "is_active"@[0]);
    assert("error_cooldown"@[0] != "last_execution"@[0]);
    assert("last_update"@[0] != "description"@[0]);
}

/// Reads the name of a column a listing may be ordered by; other names are ignored.
pub fn parse_order_column(value: &str) -> (res: Option<StrategyColumn>)
    ensures
        res == spec_parse_order_column(value@),
{
    if text_eq(value, "id") {
        Some(StrategyColumn::Id)
    } else if text_eq(value, "name") {
        Some(StrategyColumn::Name)
    } else if text_eq(value, "is_active") {
        Some(StrategyColumn::IsActive)
    } else if text_eq(value, "can_trade") {
        Some(StrategyColumn::CanTrade)
    } else if text_eq(value, "description") {
        Some(StrategyColumn::Description)
    } else if text_eq(value, "last_execution") {
        Some(StrategyColumn::LastExecution)
    } else if text_eq(value, "cooldown") {
        Some(StrategyColumn::Cooldown)
    } else if text_eq(value, "error_cooldown") {
        Some(StrategyColumn::ErrorCooldown)
    } else if text_eq(value, "error_last_date") {
        Some(StrategyColumn::ErrorLastDate)
    } else if text_eq(value, "last_update") {
        Some(StrategyColumn::LastUpdate)
    } else {
        None
    }
}

/// How the strategies listing reads its table before the request's options apply.
pub open spec fn spec_listing_defaults() -> ListingDefaults<StrategyColumn> {
    ListingDefaults { limit: None, primary: None, direction: OrderDirection::Asc }
}

pub fn listing_defaults() -> (res: ListingDefaults<StrategyColumn>)
    ensures
        res == spec_listing_defaults(),
{
    ListingDefaults { limit: None, primary: None, direction: OrderDirection::Asc }
}

/// The plan of a listing of the strategies table with these options.
pub fn plan_query(query: &Option<QueryOptions>) -> (res: QueryPlan<StrategyColumn>)
    ensures
        (res.limit, res.offset, res.ordering@) == spec_plan(
            spec_listing_defaults(),
            options_shape(*query),
            match query {
                Some(q) => match q.order_by {
                    Some(name) => spec_parse_order_column(name@),
                    None => None,
                },
                None => None,
            },
        ),
{
    let column = match order_by_name(query) {
        Some(name) => parse_order_column(name),
        None => None,
    };
    build_plan(&listing_defaults(), query, column)
}

/// Whether `r` is the record an insert request creates under id `id` at time `now`: unset fields take their defaults, the optional ones are taken as they are; the update time is `now`.
pub open spec fn spec_is_new_record(r: Strategy, req: StrategyRequest, id: i32, now: i64) -> bool {
    &&& r.id == (id)
    &&& r.name@ == (match req.name { Some(v) => v@, None => Seq::<char>::empty() })
    &&& r.is_active == (match req.is_active { Some(v) => v, None => false })
    &&& r.description == (req.description)
    &&& r.can_trade == (match req.can_trade { Some(v) => v, None => false })
    &&& r.last_execution == (req.last_execution)
    &&& r.cooldown == (req.cooldown)
    &&& r.error_cooldown == (req.error_cooldown)
    &&& r.error_last_date == (req.error_last_date)
    &&& r.last_update == (now)
}

pub fn new_record(req: &StrategyRequest, id: i32, now: i64) -> (res: Strategy)
    ensures
        spec_is_new_record(res, *req, id, now),
{
    Strategy {
        id: id,
        name: match &req.name { Some(v) => v.clone(), None => empty_text() },
        is_active: match req.is_active { Some(v) => v, None => false },
        description: clone_text(&req.description),
        can_trade: match req.can_trade { Some(v) => v, None => false },
        last_execution: req.last_execution,
        cooldown: req.cooldown,
        error_cooldown: req.error_cooldown,
        error_last_date: req.error_last_date,
        last_update: now,
    }
}

/// A new record has the id it is given, each field an insert request sets
/// at the request's value and each other field at its default (the dates the
/// table fills at the time of the insert).
pub proof fn lemma_new_record_fields(r: Strategy, req: StrategyRequest, id: i32, now: i64)
    requires
        spec_is_new_record(r, req, id, now),
    ensures
        r.id == id,
        req.name matches Some(v) ==> r.name@ == v@,
        req.name is None ==> r.name@ == Seq::<char>::empty(),
        req.is_active matches Some(v) ==> r.is_active == v,
        req.is_active is None ==> r.is_active == false,
        r.description == req.description,
        req.can_trade matches Some(v) ==> r.can_trade == v,
        req.can_trade is None ==> r.can_trade == false,
        r.last_execution == req.last_execution,
        r.cooldown == req.cooldown,
        r.error_cooldown == req.error_cooldown,
        r.error_last_date == req.error_last_date,
        r.last_update == now,
{
}

/// Whether a single-record request selects `m` (the conditions of a lookup).
pub open spec fn spec_selects(m: Strategy, req: StrategyRequest) -> bool {
    &&& (match req.id { Some(v) => m.id == v, None => true })
}

/// Whether a listing request selects `m` (the conditions of a listing).
pub open spec fn spec_lists(m: Strategy, req: StrategyRequest) -> bool {
    &&& (match req.id { Some(v) => m.id == v, None => true })
    &&& (match req.name { Some(v) => m.name@ == v@, None => true })
    &&& (match req.is_active { Some(v) => m.is_active == v, None => true })
    &&& (match req.can_trade { Some(v) => m.can_trade == v, None => true })
}

/// A single-record request keeps only records that agree with it: a record it keeps has, in
/// each field it sets among `id`, the value the request sets
/// (where an empty or non-positive value sets no condition). The blank
/// request keeps every record, and a kept record is still kept when a field
/// of the request is set to that record's own value.
pub proof fn lemma_selects_filters(m: Strategy, req: StrategyRequest)
    ensures
        spec_selects(m, (StrategyRequest { id: None, name: None, is_active: None, description: None, can_trade: None, last_execution: None, cooldown: None, error_cooldown: None, error_last_date: None })),
        req.id matches Some(v) ==> (spec_selects(m, req) ==> m.id == v),
        spec_selects(m, req) ==> spec_selects(m, (StrategyRequest { id: Some(m.id), ..req })),
{
}

/// A listing request keeps only records that agree with it: a record it keeps has, in
/// each field it sets among `id`, `name`, `is_active`, `can_trade`, the value the request sets
/// (where an empty or non-positive value sets no condition). The blank
/// request keeps every record, and a kept record is still kept when a field
/// of the request is set to that record's own value.
pub proof fn lemma_lists_filters(m: Strategy, req: StrategyRequest)
    ensures
        spec_lists(m, (StrategyRequest { id: None, name: None, is_active: None, description: None, can_trade: None, last_execution: None, cooldown: None, error_cooldown: None, error_last_date: None })),
        req.id matches Some(v) ==> (spec_lists(m, req) ==> m.id == v),
        req.name matches Some(v) ==> (spec_lists(m, req) ==> m.name@ == v@),
        req.is_active matches Some(v) ==> (spec_lists(m, req) ==> m.is_active == v),
        req.can_trade matches Some(v) ==> (spec_lists(m, req) ==> m.can_trade == v),
        spec_lists(m, req) ==> spec_lists(m, (StrategyRequest { id: Some(m.id), ..req })),
        spec_lists(m, req) ==> spec_lists(m, (StrategyRequest { name: Some(m.name), ..req })),
        spec_lists(m, req) ==> spec_lists(m, (StrategyRequest { is_active: Some(m.is_active), ..req })),
        spec_lists(m, req) ==> spec_lists(m, (StrategyRequest { can_trade: Some(m.can_trade), ..req })),
{
}

/// `m` after an update request at time `now`: every field the request sets is replaced (an optional one is never cleared), and the update time becomes `now`.
pub open spec fn spec_apply_update(m: Strategy, req: StrategyRequest, now: i64) -> Strategy {
    Strategy {
        id: m.id,
        name: match req.name { Some(v) => v, None => m.name },
        is_active: match req.is_active { Some(v) => v, None => m.is_active },
        description: match req.description { Some(v) => Some(v), None => m.description },
        can_trade: match req.can_trade { Some(v) => v, None => m.can_trade },
        last_execution: match req.last_execution { Some(v) => Some(v), None => m.last_execution },
        cooldown: match req.cooldown { Some(v) => Some(v), None => m.cooldown },
        error_cooldown: match req.error_cooldown { Some(v) => Some(v), None => m.error_cooldown },
        error_last_date: match req.error_last_date { Some(v) => Some(v), None => m.error_last_date },
        last_update: now,
    }
}

/// An update request: each field the request sets among those it may change takes the
/// request's value, an unset one keeps the record's, the other fields stay as
/// they are (the update time becomes `now`), and doing it twice is doing it once.
pub proof fn lemma_apply_update_fields(m: Strategy, req: StrategyRequest, now: i64)
    ensures
        spec_apply_update(m, req, now).id == m.id,
        req.name matches Some(v) ==> spec_apply_update(m, req, now).name == v,
        req.name is None ==> spec_apply_update(m, req, now).name == m.name,
        req.is_active matches Some(v) ==> spec_apply_update(m, req, now).is_active == v,
        req.is_active is None ==> spec_apply_update(m, req, now).is_active == m.is_active,
        req.description matches Some(v) ==> spec_apply_update(m, req, now).description == Some(v),
        req.description is None ==> spec_apply_update(m, req, now).description == m.description,
        req.can_trade matches Some(v) ==> spec_apply_update(m, req, now).can_trade == v,
        req.can_trade is None ==> spec_apply_update(m, req, now).can_trade == m.can_trade,
        req.last_execution matches Some(v) ==> spec_apply_update(m, req, now).last_execution == Some(v),
        req.last_execution is None ==> spec_apply_update(m, req, now).last_execution == m.last_execution,
        req.cooldown matches Some(v) ==> spec_apply_update(m, req, now).cooldown == Some(v),
        req.cooldown is None ==> spec_apply_update(m, req, now).cooldown == m.cooldown,
        req.error_cooldown matches Some(v) ==> spec_apply_update(m, req, now).error_cooldown == Some(v),
        req.error_cooldown is None ==> spec_apply_update(m, req, now).error_cooldown == m.error_cooldown,
        req.error_last_date matches Some(v) ==> spec_apply_update(m, req, now).error_last_date == Some(v),
        req.error_last_date is None ==> spec_apply_update(m, req, now).error_last_date == m.error_last_date,
        spec_apply_update(m, req, now).last_update == now,
        spec_apply_update(spec_apply_update(m, req, now), req, now) == spec_apply_update(m, req, now),
{
}

/// Whether `r` is the record with every field at its default.
pub open spec fn spec_is_default(r: Strategy) -> bool {
    &&& r.id == 0i32
    &&& r.name@ == Seq::<char>::empty()
    &&& r.is_active == false
    &&& r.description is None
    &&& r.can_trade == false
    &&& r.last_execution is None
    &&& r.cooldown is None
    &&& r.error_cooldown is None
    &&& r.error_last_date is None
    &&& r.last_update == 0i64
}

impl Strategy {
    /// The record with every field at its default.
    pub fn default_record() -> (res: Self)
        ensures
            spec_is_default(res),
    {
        Strategy {
            id: 0i32,
            name: empty_text(),
            is_active: false,
            description: None,
            can_trade: false,
            last_execution: None,
            cooldown: None,
            error_cooldown: None,
            error_last_date: None,
            last_update: 0i64,
        }
    }

    pub fn duplicate(&self) -> (res: Self)
        ensures
            res == *self,
    {
        Strategy {
            id: self.id,
            name: self.name.clone(),
            is_active: self.is_active,
            description: clone_text(&self.description),
            can_trade: self.can_trade,
            last_execution: self.last_execution,
            cooldown: self.cooldown,
            error_cooldown: self.error_cooldown,
            error_last_date: self.error_last_date,
            last_update: self.last_update,
        }
    }

    /// This record after an update request at time `now`.
    pub fn apply_update(&self, req: &StrategyRequest, now: i64) -> (res: Self)
        ensures
            res == spec_apply_update(*self, *req, now),
    {
        Strategy {
            id: self.id,
            name: match &req.name { Some(v) => v.clone(), None => self.name.clone() },
            is_active: match req.is_active { Some(v) => v, None => self.is_active },
            description: match &req.description { Some(v) => Some(v.clone()), None => clone_text(&self.description) },
            can_trade: match req.can_trade { Some(v) => v, None => self.can_trade },
            last_execution: match req.last_execution { Some(v) => Some(v), None => self.last_execution },
            cooldown: match req.cooldown { Some(v) => Some(v), None => self.cooldown },
            error_cooldown: match req.error_cooldown { Some(v) => Some(v), None => self.error_cooldown },
            error_last_date: match req.error_last_date { Some(v) => Some(v), None => self.error_last_date },
            last_update: now,
        }
    }

    pub fn selects(&self, req: &StrategyRequest) -> (res: bool)
        ensures
            res == spec_selects(*self, *req),
    {
        (match req.id { Some(v) => self.id == v, None => true })
    }

    pub fn lists(&self, req: &StrategyRequest) -> (res: bool)
        ensures
            res == spec_lists(*self, *req),
    {
        (match req.id { Some(v) => self.id == v, None => true })
        && (match &req.name { Some(v) => text_is(&self.name, v), None => true })
        && (match req.is_active { Some(v) => self.is_active == v, None => true })
        && (match req.can_trade { Some(v) => self.can_trade == v, None => true })
    }

}

impl StrategyRequest {
    /// The request with no field set.
    pub fn blank() -> (res: Self)
        ensures
            res.id is None,
            res.name is None,
            res.is_active is None,
            res.description is None,
            res.can_trade is None,
            res.last_execution is None,
            res.cooldown is None,
            res.error_cooldown is None,
            res.error_last_date is None,
    {
        StrategyRequest { id: None, name: None, is_active: None, description: None, can_trade: None, last_execution: None, cooldown: None, error_cooldown: None, error_last_date: None }
    }

    pub fn duplicate(&self) -> (res: Self)
        ensures
            res == *self,
    {
        StrategyRequest {
            id: self.id,
            name: clone_text(&self.name),
            is_active: self.is_active,
            description: clone_text(&self.description),
            can_trade: self.can_trade,
            last_execution: self.last_execution,
            cooldown: self.cooldown,
            error_cooldown: self.error_cooldown,
            error_last_date: self.error_last_date,
        }
    }
}

/// Whether a lookup of the in-memory strategies table finds `m`: the record whose id is the request's (0 when it sets none).
pub open spec fn spec_mock_finds(m: Strategy, req: StrategyRequest) -> bool {
    &&& (m.id == (match req.id { Some(v) => v, None => 0i32 }))
}

/// Whether a listing of the in-memory strategies table keeps `m`: every record, whatever the request.
pub open spec fn spec_mock_lists(m: Strategy, req: StrategyRequest) -> bool {
    true
}

/// A lookup of the in-memory table finds exactly the record whose id is the
/// request's, and the record with id 0 when the request sets no id.
pub proof fn lemma_mock_finds_by_id(m: Strategy, req: StrategyRequest)
    ensures
        req.id matches Some(v) ==> (spec_mock_finds(m, req) <==> m.id == v),
        req.id is None ==> (spec_mock_finds(m, req) <==> m.id == 0),
{
}

/// A listing of the in-memory table keeps every record, whatever the request.
pub proof fn lemma_mock_lists_keeps_all(m: Strategy, req: StrategyRequest)
    ensures
        spec_mock_lists(m, req),
{
}

/// `m` after an update of the in-memory strategies table at time `now`: the request replaces `is_active` where it sets them.
pub open spec fn spec_mock_update(m: Strategy, req: StrategyRequest, now: i64) -> Strategy {
    Strategy {
        id: m.id,
        name: m.name,
        is_active: match req.is_active { Some(v) => v, None => m.is_active },
        description: m.description,
        can_trade: m.can_trade,
        last_execution: m.last_execution,
        cooldown: m.cooldown,
        error_cooldown: m.error_cooldown,
        error_last_date: m.error_last_date,
        last_update: m.last_update,
    }
}

/// An update of the in-memory table: each field the request sets among those it may change takes the
/// request's value, an unset one keeps the record's, the other fields stay as
/// they are (the update time becomes `now`), and doing it twice is doing it once.
pub proof fn lemma_mock_update_fields(m: Strategy, req: StrategyRequest, now: i64)
    ensures
        spec_mock_update(m, req, now).id == m.id,
        spec_mock_update(m, req, now).name == m.name,
        req.is_active matches Some(v) ==> spec_mock_update(m, req, now).is_active == v,
        req.is_active is None ==> spec_mock_update(m, req, now).is_active == m.is_active,
        spec_mock_update(m, req, now).description == m.description,
        spec_mock_update(m, req, now).can_trade == m.can_trade,
        spec_mock_update(m, req, now).last_execution == m.last_execution,
        spec_mock_update(m, req, now).cooldown == m.cooldown,
        spec_mock_update(m, req, now).error_cooldown == m.error_cooldown,
        spec_mock_update(m, req, now).error_last_date == m.error_last_date,
        spec_mock_update(m, req, now).last_update == m.last_update,
        spec_mock_update(spec_mock_update(m, req, now), req, now) == spec_mock_update(m, req, now),
{
}

impl Strategy {
    pub fn mock_finds(&self, req: &StrategyRequest) -> (res: bool)
        ensures
            res == spec_mock_finds(*self, *req),
    {
        (self.id == (match req.id { Some(v) => v, None => 0i32 }))
    }

    pub fn mock_lists(&self, req: &StrategyRequest) -> (res: bool)
        ensures
            res == spec_mock_lists(*self, *req),
    {
        true
    }

    pub fn mock_update(&self, req: &StrategyRequest, now: i64) -> (res: Self)
        ensures
            res == spec_mock_update(*self, *req, now),
    {
        Strategy {
            id: self.id,
            name: self.name.clone(),
            is_active: match req.is_active { Some(v) => v, None => self.is_active },
            description: clone_text(&self.description),
            can_trade: self.can_trade,
            last_execution: self.last_execution,
            cooldown: self.cooldown,
            error_cooldown: self.error_cooldown,
            error_last_date: self.error_last_date,
            last_update: self.last_update,
        }
    }
}

/// Whether `r` is the record the in-memory strategies table creates for an insert
/// request when it holds `len` records, at time `now`: its id is the request's id, else 0;
/// the other fields as the rules of this table say.
pub open spec fn spec_mock_created(r: Strategy, req: StrategyRequest, len: nat, now: i64) -> bool {
    &&& r.id == (match req.id { Some(v) => v, None => 0i32 })
    &&& r.name@ == (match req.name { Some(v) => v@, None => Seq::<char>::empty() })
    &&& r.is_active == (match req.is_active { Some(v) => v, None => false })
    &&& r.description == req.description
    &&& r.can_trade == (match req.can_trade { Some(v) => v, None => false })
    &&& r.last_execution == req.last_execution
    &&& r.cooldown == req.cooldown
    &&& r.error_cooldown == req.error_cooldown
    &&& r.error_last_date == req.error_last_date
    &&& r.last_update == now
}

/// A record the in-memory table creates has the id its rule gives (the request's id, else 0)
/// and each other field as the table's rules say: the request's value where it
/// sets one, else the default.
pub proof fn lemma_mock_created_fields(r: Strategy, req: StrategyRequest, len: nat, now: i64)
    requires
        len < 2147483647,
        spec_mock_created(r, req, len, now),
    ensures
        req.id matches Some(v) ==> r.id == v,
        req.id is None ==> r.id == 0,
        req.name matches Some(v) ==> r.name@ == v@,
        req.name is None ==> r.name@ == Seq::<char>::empty(),
        req.is_active matches Some(v) ==> r.is_active == v,
        req.is_active is None ==> r.is_active == false,
        r.description == req.description,
        req.can_trade matches Some(v) ==> r.can_trade == v,
        req.can_trade is None ==> r.can_trade == false,
        r.last_execution == req.last_execution,
        r.cooldown == req.cooldown,
        r.error_cooldown == req.error_cooldown,
        r.error_last_date == req.error_last_date,
        r.last_update == now,
{
}

impl Strategy {
    pub fn mock_created(req: &StrategyRequest, len: usize, now: i64) -> (res: Self)
        requires
            len < 2147483647,
        ensures
            spec_mock_created(res, *req, len as nat, now),
    {
        Strategy {
            id: match req.id { Some(v) => v, None => 0i32 },
            name: match &req.name { Some(v) => v.clone(), None => empty_text() },
            is_active: match req.is_active { Some(v) => v, None => false },
            description: clone_text(&req.description),
            can_trade: match req.can_trade { Some(v) => v, None => false },
            last_execution: req.last_execution,
            cooldown: req.cooldown,
            error_cooldown: req.error_cooldown,
            error_last_date: req.error_last_date,
            last_update: now,
        }
    }
}

impl Record for Strategy {
    type Request = StrategyRequest;

    open spec fn key(&self) -> i32 {
        self.id
    }

    open spec fn request_key(req: &StrategyRequest) -> Option<i32> {
        req.id
    }

    open spec fn spec_finds(&self, req: &StrategyRequest) -> bool {
        spec_mock_finds(*self, *req)
    }

    open spec fn spec_created(&self, req: &StrategyRequest, len: nat, now: i64) -> bool {
        spec_mock_created(*self, *req, len, now)
    }

    open spec fn spec_matches(&self, req: &StrategyRequest) -> bool {
        spec_mock_lists(*self, *req)
    }

    open spec fn spec_patched(&self, req: &StrategyRequest, now: i64) -> Self {
        spec_mock_update(*self, *req, now)
    }

    open spec fn paging() -> Paging {
        Paging::LimitOnly
    }

    open spec fn spec_missing_id_message() -> Seq<char> {
        "Invalid mock update id"@
    }

    fn record_id(&self) -> (id: i32) {
        self.id
    }

    fn request_id(req: &StrategyRequest) -> (id: Option<i32>) {
        req.id
    }

    fn finds(&self, req: &StrategyRequest) -> (b: bool) {
        self.mock_finds(req)
    }

    fn created(req: &StrategyRequest, len: usize, now: i64) -> (r: Self) {
        Strategy::mock_created(req, len, now)
    }

    fn matches(&self, req: &StrategyRequest) -> (b: bool) {
        self.mock_lists(req)
    }

    fn patched(&self, req: &StrategyRequest, now: i64) -> (r: Self) {
        self.mock_update(req, now)
    }

    fn listing_paging() -> (p: Paging) {
        Paging::LimitOnly
    }

    fn missing_id_message() -> (m: String) {
        String::from_str("Invalid mock update id")
    }

    fn duplicate(&self) -> (r: Self) {
        Strategy::duplicate(self)
    }

    proof fn lemma_patch_keeps_key(&self, req: &StrategyRequest, now: i64) {
    }
}

/// The request that carries every field of a stored strategy.
pub open spec fn spec_request_of(m: Strategy) -> StrategyRequest {
    StrategyRequest {
        id: Some(m.id),
        name: Some(m.name),
        is_active: Some(m.is_active),
        description: m.description,
        can_trade: Some(m.can_trade),
        last_execution: m.last_execution,
        cooldown: m.cooldown,
        error_cooldown: m.error_cooldown,
        error_last_date: m.error_last_date,
    }
}

impl StrategyRequest {
    /// The request that carries every field of a stored strategy.
    pub fn from_model(m: &Strategy) -> (res: Self)
        ensures
            res == spec_request_of(*m),
    {
        StrategyRequest {
            id: Some(m.id),
            name: Some(m.name.clone()),
            is_active: Some(m.is_active),
            description: clone_text(&m.description),
            can_trade: Some(m.can_trade),
            last_execution: m.last_execution,
            cooldown: m.cooldown,
            error_cooldown: m.error_cooldown,
            error_last_date: m.error_last_date,
        }
    }
}

} // verus!
