use vstd::prelude::*;

use crate::amount::Amount;
use crate::entities::common::{clone_text, empty_text, text_is};
use crate::query::{build_plan, order_by_name, spec_plan, options_shape, ListingDefaults, OrderDirection, QueryOptions, QueryPlan};
use crate::repository::{Paging, Record};
use crate::text::text_eq;

verus! {

/// A stored indicator: a condition of a strategy on the market of a symbol.
pub struct Indicator {
    pub id: i32,
    pub strategy_id: i32,
    pub is_active: bool,
    pub symbol: String,
    pub nick: String,
    pub direction: String,
    pub is_percentage: bool,
    pub value: Amount,
    pub last_update: i64,
}

/// A request on the indicators table: every field that is set selects or changes.
pub struct IndicatorRequest {
    pub id: Option<i32>,
    pub strategy_id: Option<i32>,
    pub is_active: Option<bool>,
    pub symbol: Option<String>,
    pub nick: Option<String>,
    pub direction: Option<String>,
    pub is_percentage: Option<bool>,
    pub value: Option<Amount>,
}

/// The columns of the indicators table.
#[derive(Debug, Clone, Copy, PartialEq, Eq, Structural)]
pub enum IndicatorColumn {
    Id,
    StrategyId,
    IsActive,
    Symbol,
    Nick,
    Direction,
    IsPercentage,
    Value,
    LastUpdate,
}

/// The column a listing may be ordered by, from its name.
pub open spec fn spec_parse_order_column(value: Seq<char>) -> Option<IndicatorColumn> {
    if value == "id"@ {
        Some(IndicatorColumn::Id)
    } else if value == "strategy_id"@ {
        Some(IndicatorColumn::StrategyId)
    } else if value == "is_active"@ {
        Some(IndicatorColumn::IsActive)
    } else if value == "symbol"@ {
        Some(IndicatorColumn::Symbol)
    } else if value == "nick"@ {
        Some(IndicatorColumn::Nick)
    } else if value == "direction"@ {
        Some(IndicatorColumn::Direction)
    } else if value == "is_percentage"@ {
        Some(IndicatorColumn::IsPercentage)
    } else if value == "value"@ {
        Some(IndicatorColumn::Value)
    } else if value == "last_update"@ {
        Some(IndicatorColumn::LastUpdate)
    } else {
        None
    }
}

/// Each column name reads as its own column.
pub proof fn lemma_column_names_read_back()
    ensures
        spec_parse_order_column("id"@) == Some(IndicatorColumn::Id),
        spec_parse_order_column("strategy_id"@) == Some(IndicatorColumn::StrategyId),
        spec_parse_order_column("is_active"@) == Some(IndicatorColumn::IsActive),
        spec_parse_order_column("symbol"@) == Some(IndicatorColumn::Symbol),
        spec_parse_order_column("nick"@) == Some(IndicatorColumn::Nick),
        spec_parse_order_column("direction"@) == Some(IndicatorColumn::Direction),
        spec_parse_order_column("is_percentage"@) == Some(IndicatorColumn::IsPercentage),
        spec_parse_order_column("value"@) == Some(IndicatorColumn::Value),
        spec_parse_order_column("last_update"@) == Some(IndicatorColumn::LastUpdate),
{
    reveal_strlit("id");
    assert("id"@.len() == 2);
    reveal_strlit("strategy_id");
    assert("strategy_id"@.len() == 11);
    reveal_strlit("is_active");
    assert("is_active"@.len() == 9);
    reveal_strlit("symbol");
    assert("symbol"@.len() == 6);
    reveal_strlit("nick");
    assert("nick"@.len() == 4);
    reveal_strlit("direction");
    assert("direction"@.len() == 9);
    reveal_strlit("is_percentage");
    assert("is_percentage"@.len() == 13);
    reveal_strlit("value");
    assert("value"@.len() == 5);
    reveal_strlit("last_update");
    assert("last_update"@.len() == 11);
    assert("direction"@[0] != "is_active"@[0]);
    assert("last_update"@[0] != "strategy_id"@[0]);
}

/// Reads the name of a column a listing may be ordered by; other names are ignored.
pub fn parse_order_column(value: &str) -> (res: Option<IndicatorColumn>)
    ensures
        res == spec_parse_order_column(value@),
{
    if text_eq(value, "id") {
        Some(IndicatorColumn::Id)
    } else if text_eq(value, "strategy_id") {
        Some(IndicatorColumn::StrategyId)
    } else if text_eq(value, "is_active") {
        Some(IndicatorColumn::IsActive)
    } else if text_eq(value, "symbol") {
        Some(IndicatorColumn::Symbol)
    } else if text_eq(value, "nick") {
        Some(IndicatorColumn::Nick)
    } else if text_eq(value, "direction") {
        Some(IndicatorColumn::Direction)
    } else if text_eq(value, "is_percentage") {
        Some(IndicatorColumn::IsPercentage)
    } else if text_eq(value, "value") {
        Some(IndicatorColumn::Value)
    } else if text_eq(value, "last_update") {
        Some(IndicatorColumn::LastUpdate)
    } else {
        None
    }
}

/// How the indicators listing reads its table before the request's options apply.
pub open spec fn spec_listing_defaults() -> ListingDefaults<IndicatorColumn> {
    ListingDefaults { limit: None, primary: None, direction: OrderDirection::Asc }
}

pub fn listing_defaults() -> (res: ListingDefaults<IndicatorColumn>)
    ensures
        res == spec_listing_defaults(),
{
    ListingDefaults { limit: None, primary: None, direction: OrderDirection::Asc }
}

/// The plan of a listing of the indicators table with these options.
pub fn plan_query(query: &Option<QueryOptions>) -> (res: QueryPlan<IndicatorColumn>)
    ensures
        (res.limit, res.offset, res.ordering@) == spec_plan(
            spec_listing_defaults(),
            options_shape(*query),
            match query {
                Some(q) => match q.order_by {
                    Some(name) => spec_parse_order_column(name@),
                    None => None,
                },
                None => None,
            },
        ),
{
    let column = match order_by_name(query) {
        Some(name) => parse_order_column(name),
        None => None,
    };
    build_plan(&listing_defaults(), query, column)
}

/// Whether `r` is the record an insert request creates under id `id` at time `now`: unset fields take their defaults; the update time is `now`.
pub open spec fn spec_is_new_record(r: Indicator, req: IndicatorRequest, id: i32, now: i64) -> bool {
    &&& r.id == (id)
    &&& r.strategy_id == (match req.strategy_id { Some(v) => v, None => 0i32 })
    &&& r.is_active == (match req.is_active { Some(v) => v, None => false })
    &&& r.symbol@ == (match req.symbol { Some(v) => v@, None => Seq::<char>::empty() })
    &&& r.nick@ == (match req.nick { Some(v) => v@, None => Seq::<char>::empty() })
    &&& r.direction@ == (match req.direction { Some(v) => v@, None => Seq::<char>::empty() })
    &&& r.is_percentage == (match req.is_percentage { Some(v) => v, None => false })
    &&& r.value == (match req.value { Some(v) => v, None => Amount::spec_zero() })
    &&& r.last_update == (now)
}

pub fn new_record(req: &IndicatorRequest, id: i32, now: i64) -> (res: Indicator)
    ensures
        spec_is_new_record(res, *req, id, now),
{
    Indicator {
        id: id,
        strategy_id: match req.strategy_id { Some(v) => v, None => 0i32 },
        is_active: match req.is_active { Some(v) => v, None => false },
        symbol: match &req.symbol { Some(v) => v.clone(), None => empty_text() },
        nick: match &req.nick { Some(v) => v.clone(), None => empty_text() },
        direction: match &req.direction { Some(v) => v.clone(), None => empty_text() },
        is_percentage: match req.is_percentage { Some(v) => v, None => false },
        value: match req.value { Some(v) => v, None => Amount::zero() },
        last_update: now,
    }
}

/// A new record has the id it is given, each field an insert request sets
/// at the request's value and each other field at its default (the dates the
/// table fills at the time of the insert).
pub proof fn lemma_new_record_fields(r: Indicator, req: IndicatorRequest, id: i32, now: i64)
    requires
        spec_is_new_record(r, req, id, now),
    ensures
        r.id == id,
        req.strategy_id matches Some(v) ==> r.strategy_id == v,
        req.strategy_id is None ==> r.strategy_id == 0i32,
        req.is_active matches Some(v) ==> r.is_active == v,
        req.is_active is None ==> r.is_active == false,
        req.symbol matches Some(v) ==> r.symbol@ == v@,
        req.symbol is None ==> r.symbol@ == Seq::<char>::empty(),
        req.nick matches Some(v) ==> r.nick@ == v@,
        req.nick is None ==> r.nick@ == Seq::<char>::empty(),
        req.direction matches Some(v) ==> r.direction@ == v@,
        req.direction is None ==> r.direction@ == Seq::<char>::empty(),
        req.is_percentage matches Some(v) ==> r.is_percentage == v,
        req.is_percentage is None ==> r.is_percentage == false,
        req.value matches Some(v) ==> r.value == v,
        req.value is None ==> r.value == Amount::spec_zero(),
        r.last_update == now,
{
}

/// Whether a single-record request selects `m` (the conditions of a lookup).
pub open spec fn spec_selects(m: Indicator, req: IndicatorRequest) -> bool {
    &&& (match req.id { Some(v) => m.id == v, None => true })
}

/// Whether a listing request selects `m` (the conditions of a listing).
pub open spec fn spec_lists(m: Indicator, req: IndicatorRequest) -> bool {
    &&& (match req.strategy_id { Some(v) => m.strategy_id == v, None => true })
    &&& (match req.is_active { Some(v) => m.is_active == v, None => true })
    &&& (match req.symbol { Some(v) => m.symbol@ == v@, None => true })
    &&& (match req.nick { Some(v) => m.nick@ == v@, None => true })
}

/// A single-record request keeps only records that agree with it: a record it keeps has, in
/// each field it sets among `id`, the value the request sets
/// (where an empty or non-positive value sets no condition). The blank
/// request keeps every record, and a kept record is still kept when a field
/// of the request is set to that record's own value.
pub proof fn lemma_selects_filters(m: Indicator, req: IndicatorRequest)
    ensures
        spec_selects(m, (IndicatorRequest { id: None, strategy_id: None, is_active: None, symbol: None, nick: None, direction: None, is_percentage: None, value: None })),
        req.id matches Some(v) ==> (spec_selects(m, req) ==> m.id == v),
        spec_selects(m, req) ==> spec_selects(m, (IndicatorRequest { id: Some(m.id), ..req })),
{
}

/// A listing request keeps only records that agree with it: a record it keeps has, in
/// each field it sets among `strategy_id`, `is_active`, `symbol`, `nick`, the value the request sets
/// (where an empty or non-positive value sets no condition). The blank
/// request keeps every record, and a kept record is still kept when a field
/// of the request is set to that record's own value.
pub proof fn lemma_lists_filters(m: Indicator, req: IndicatorRequest)
    ensures
        spec_lists(m, (IndicatorRequest { id: None, strategy_id: None, is_active: None, symbol: None, nick: None, direction: None, is_percentage: None, value: None })),
        req.strategy_id matches Some(v) ==> (spec_lists(m, req) ==> m.strategy_id == v),
        req.is_active matches Some(v) ==> (spec_lists(m, req) ==> m.is_active == v),
        req.symbol matches Some(v) ==> (spec_lists(m, req) ==> m.symbol@ == v@),
        req.nick matches Some(v) ==> (spec_lists(m, req) ==> m.nick@ == v@),
        spec_lists(m, req) ==> spec_lists(m, (IndicatorRequest { strategy_id: Some(m.strategy_id), ..req })),
        spec_lists(m, req) ==> spec_lists(m, (IndicatorRequest { is_active: Some(m.is_active), ..req })),
        spec_lists(m, req) ==> spec_lists(m, (IndicatorRequest { symbol: Some(m.symbol), ..req })),
        spec_lists(m, req) ==> spec_lists(m, (IndicatorRequest { nick: Some(m.nick), ..req })),
{
}

/// `m` after an update request at time `now`: every field the request sets is replaced, and the update time becomes `now`.
pub open spec fn spec_apply_update(m: Indicator, req: IndicatorRequest, now: i64) -> Indicator {
    Indicator {
        id: m.id,
        strategy_id: match req.strategy_id { Some(v) => v, None => m.strategy_id },
        is_active: match req.is_active { Some(v) => v, None => m.is_active },
        symbol: match req.symbol { Some(v) => v, None => m.symbol },
        nick: match req.nick { Some(v) => v, None => m.nick },
        direction: match req.direction { Some(v) => v, None => m.direction },
        is_percentage: match req.is_percentage { Some(v) => v, None => m.is_percentage },
        value: match req.value { Some(v) => v, None => m.value },
        last_update: now,
    }
}

/// An update request: each field the request sets among those it may change takes the
/// request's value, an unset one keeps the record's, the other fields stay as
/// they are (the update time becomes `now`), and doing it twice is doing it once.
pub proof fn lemma_apply_update_fields(m: Indicator, req: IndicatorRequest, now: i64)
    ensures
        spec_apply_update(m, req, now).id == m.id,
        req.strategy_id matches Some(v) ==> spec_apply_update(m, req, now).strategy_id == v,
        req.strategy_id is None ==> spec_apply_update(m, req, now).strategy_id == m.strategy_id,
        req.is_active matches Some(v) ==> spec_apply_update(m, req, now).is_active == v,
        req.is_active is None ==> spec_apply_update(m, req, now).is_active == m.is_active,
        req.symbol matches Some(v) ==> spec_apply_update(m, req, now).symbol == v,
        req.symbol is None ==> spec_apply_update(m, req, now).symbol == m.symbol,
        req.nick matches Some(v) ==> spec_apply_update(m, req, now).nick == v,
        req.nick is None ==> spec_apply_update(m, req, now).nick == m.nick,
        req.direction matches Some(v) ==> spec_apply_update(m, req, now).direction == v,
        req.direction is None ==> spec_apply_update(m, req, now).direction == m.direction,
        req.is_percentage matches Some(v) ==> spec_apply_update(m, req, now).is_percentage == v,
        req.is_percentage is None ==> spec_apply_update(m, req, now).is_percentage == m.is_percentage,
        req.value matches Some(v) ==> spec_apply_update(m, req, now).value == v,
        req.value is None ==> spec_apply_update(m, req, now).value == m.value,
        spec_apply_update(m, req, now).last_update == now,
        spec_apply_update(spec_apply_update(m, req, now), req, now) == spec_apply_update(m, req, now),
{
}

/// Whether `r` is the record with every field at its default.
pub open spec fn spec_is_default(r: Indicator) -> bool {
    &&& r.id == 0i32
    &&& r.strategy_id == 0i32
    &&& r.is_active == false
    &&& r.symbol@ == Seq::<char>::empty()
    &&& r.nick@ == Seq::<char>::empty()
    &&& r.direction@ == Seq::<char>::empty()
    &&& r.is_percentage == false
    &&& r.value == Amount::spec_zero()
    &&& r.last_update == 0i64
}

impl Indicator {
    /// The record with every field at its default.
    pub fn default_record() -> (res: Self)
        ensures
            spec_is_default(res),
    {
        Indicator {
            id: 0i32,
            strategy_id: 0i32,
            is_active: false,
            symbol: empty_text(),
            nick: empty_text(),
            direction: empty_text(),
            is_percentage: false,
            value: Amount::zero(),
            last_update: 0i64,
        }
    }

    pub fn duplicate(&self) -> (res: Self)
        ensures
            res == *self,
    {
        Indicator {
            id: self.id,
            strategy_id: self.strategy_id,
            is_active: self.is_active,
            symbol: self.symbol.clone(),
            nick: self.nick.clone(),
            direction: self.direction.clone(),
            is_percentage: self.is_percentage,
            value: self.value,
            last_update: self.last_update,
        }
    }

    /// This record after an update request at time `now`.
    pub fn apply_update(&self, req: &IndicatorRequest, now: i64) -> (res: Self)
        ensures
            res == spec_apply_update(*self, *req, now),
    {
        Indicator {
            id: self.id,
            strategy_id: match req.strategy_id { Some(v) => v, None => self.strategy_id },
            is_active: match req.is_active { Some(v) => v, None => self.is_active },
            symbol: match &req.symbol { Some(v) => v.clone(), None => self.symbol.clone() },
            nick: match &req.nick { Some(v) => v.clone(), None => self.nick.clone() },
            direction: match &req.direction { Some(v) => v.clone(), None => self.direction.clone() },
            is_percentage: match req.is_percentage { Some(v) => v, None => self.is_percentage },
            value: match req.value { Some(v) => v, None => self.value },
            last_update: now,
        }
    }

    pub fn selects(&self, req: &IndicatorRequest) -> (res: bool)
        ensures
            res == spec_selects(*self, *req),
    {
        (match req.id { Some(v) => self.id == v, None => true })
    }

    pub fn lists(&self, req: &IndicatorRequest) -> (res: bool)
        ensures
            res == spec_lists(*self, *req),
    {
        (match req.strategy_id { Some(v) => self.strategy_id == v, None => true })
        && (match req.is_active { Some(v) => self.is_active == v, None => true })
        && (match &req.symbol { Some(v) => text_is(&self.symbol, v), None => true })
        && (match &req.nick { Some(v) => text_is(&self.nick, v), None => true })
    }

}

impl IndicatorRequest {
    /// The request with no field set.
    pub fn blank() -> (res: Self)
        ensures
            res.id is None,
            res.strategy_id is None,
            res.is_active is None,
            res.symbol is None,
            res.nick is None,
            res.direction is None,
            res.is_percentage is None,
            res.value is None,
    {
        IndicatorRequest { id: None, strategy_id: None, is_active: None, symbol: None, nick: None, direction: None, is_percentage: None, value: None }
    }

    pub fn duplicate(&self) -> (res: Self)
        ensures
            res == *self,
    {
        IndicatorRequest {
            id: self.id,
            strategy_id: self.strategy_id,
            is_active: self.is_active,
            symbol: clone_text(&self.symbol),
            nick: clone_text(&self.nick),
            direction: clone_text(&self.direction),
            is_percentage: self.is_percentage,
            value: self.value,
        }
    }
}

/// Whether a lookup of the in-memory indicators table finds `m`: the record whose id is the request's (0 when it sets none).
pub open spec fn spec_mock_finds(m: Indicator, req: IndicatorRequest) -> bool {
    &&& (m.id == (match req.id { Some(v) => v, None => 0i32 }))
}

/// Whether a listing of the in-memory indicators table keeps `m`: every record, whatever the request.
pub open spec fn spec_mock_lists(m: Indicator, req: IndicatorRequest) -> bool {
    true
}

/// A lookup of the in-memory table finds exactly the record whose id is the
/// request's, and the record with id 0 when the request sets no id.
pub proof fn lemma_mock_finds_by_id(m: Indicator, req: IndicatorRequest)
    ensures
        req.id matches Some(v) ==> (spec_mock_finds(m, req) <==> m.id == v),
        req.id is None ==> (spec_mock_finds(m, req) <==> m.id == 0),
{
}

/// A listing of the in-memory table keeps every record, whatever the request.
pub proof fn lemma_mock_lists_keeps_all(m: Indicator, req: IndicatorRequest)
    ensures
        spec_mock_lists(m, req),
{
}

/// `m` after an update of the in-memory indicators table at time `now`: the request replaces `is_active` where it sets them.
pub open spec fn spec_mock_update(m: Indicator, req: IndicatorRequest, now: i64) -> Indicator {
    Indicator {
        id: m.id,
        strategy_id: m.strategy_id,
        is_active: match req.is_active { Some(v) => v, None => m.is_active },
        symbol: m.symbol,
        nick: m.nick,
        direction: m.direction,
        is_percentage: m.is_percentage,
        value: m.value,
        last_update: m.last_update,
    }
}

/// An update of the in-memory table: each field the request sets among those it may change takes the
/// request's value, an unset one keeps the record's, the other fields stay as
/// they are (the update time becomes `now`), and doing it twice is doing it once.
pub proof fn lemma_mock_update_fields(m: Indicator, req: IndicatorRequest, now: i64)
    ensures
        spec_mock_update(m, req, now).id == m.id,
        spec_mock_update(m, req, now).strategy_id == m.strategy_id,
        req.is_active matches Some(v) ==> spec_mock_update(m, req, now).is_active == v,
        req.is_active is None ==> spec_mock_update(m, req, now).is_active == m.is_active,
        spec_mock_update(m, req, now).symbol == m.symbol,
        spec_mock_update(m, req, now).nick == m.nick,
        spec_mock_update(m, req, now).direction == m.direction,
        spec_mock_update(m, req, now).is_percentage == m.is_percentage,
        spec_mock_update(m, req, now).value == m.value,
        spec_mock_update(m, req, now).last_update == m.last_update,
        spec_mock_update(spec_mock_update(m, req, now), req, now) == spec_mock_update(m, req, now),
{
}

impl Indicator {
    pub fn mock_finds(&self, req: &IndicatorRequest) -> (res: bool)
        ensures
            res == spec_mock_finds(*self, *req),
    {
        (self.id == (match req.id { Some(v) => v, None => 0i32 }))
    }

    pub fn mock_lists(&self, req: &IndicatorRequest) -> (res: bool)
        ensures
            res == spec_mock_lists(*self, *req),
    {
        true
    }

    pub fn mock_update(&self, req: &IndicatorRequest, now: i64) -> (res: Self)
        ensures
            res == spec_mock_update(*self, *req, now),
    {
        Indicator {
            id: self.id,
            strategy_id: self.strategy_id,
            is_active: match req.is_active { Some(v) => v, None => self.is_active },
            symbol: self.symbol.clone(),
            nick: self.nick.clone(),
            direction: self.direction.clone(),
            is_percentage: self.is_percentage,
            value: self.value,
            last_update: self.last_update,
        }
    }
}

/// Whether `r` is the record the in-memory indicators table creates for an insert
/// request when it holds `len` records, at time `now`: its id is the request's id, else 0;
/// the other fields as the rules of this table say.
pub open spec fn spec_mock_created(r: Indicator, req: IndicatorRequest, len: nat, now: i64) -> bool {
    &&& r.id == (match req.id { Some(v) => v, None => 0i32 })
    &&& r.strategy_id == (match req.strategy_id { Some(v) => v, None => 0i32 })
    &&& r.is_active == (match req.is_active { Some(v) => v, None => false })
    &&& r.symbol@ == (match req.symbol { Some(v) => v@, None => Seq::<char>::empty() })
    &&& r.nick@ == (match req.nick { Some(v) => v@, None => Seq::<char>::empty() })
    &&& r.direction@ == (match req.direction { Some(v) => v@, None => Seq::<char>::empty() })
    &&& r.is_percentage == (match req.is_percentage { Some(v) => v, None => false })
    &&& r.value == (match req.value { Some(v) => v, None => Amount::spec_zero() })
    &&& r.last_update == now
}

/// A record the in-memory table creates has the id its rule gives (the request's id, else 0)
/// and each other field as the table's rules say: the request's value where it
/// sets one, else the default.
pub proof fn lemma_mock_created_fields(r: Indicator, req: IndicatorRequest, len: nat, now: i64)
    requires
        len < 2147483647,
        spec_mock_created(r, req, len, now),
    ensures
        req.id matches Some(v) ==> r.id == v,
        req.id is None ==> r.id == 0,
        req.strategy_id matches Some(v) ==> r.strategy_id == v,
        req.strategy_id is None ==> r.strategy_id == 0i32,
        req.is_active matches Some(v) ==> r.is_active == v,
        req.is_active is None ==> r.is_active == false,
        req.symbol matches Some(v) ==> r.symbol@ == v@,
        req.symbol is None ==> r.symbol@ == Seq::<char>::empty(),
        req.nick matches Some(v) ==> r.nick@ == v@,
        req.nick is None ==> r.nick@ == Seq::<char>::empty(),
        req.direction matches Some(v) ==> r.direction@ == v@,
        req.direction is None ==> r.direction@ == Seq::<char>::empty(),
        req.is_percentage matches Some(v) ==> r.is_percentage == v,
        req.is_percentage is None ==> r.is_percentage == false,
        req.value matches Some(v) ==> r.value == v,
        req.value is None ==> r.value == Amount::spec_zero(),
        r.last_update == now,
{
}

impl Indicator {
    pub fn mock_created(req: &IndicatorRequest, len: usize, now: i64) -> (res: Self)
        requires
            len < 2147483647,
        ensures
            spec_mock_created(res, *req, len as nat, now),
    {
        Indicator {
            id: match req.id { Some(v) => v, None => 0i32 },
            strategy_id: match req.strategy_id { Some(v) => v, None => 0i32 },
            is_active: match req.is_active { Some(v) => v, None => false },
            symbol: match &req.symbol { Some(v) => v.clone(), None => empty_text() },
            nick: match &req.nick { Some(v) => v.clone(), None => empty_text() },
            direction: match &req.direction { Some(v) => v.clone(), None => empty_text() },
            is_percentage: match req.is_percentage { Some(v) => v, None => false },
            value: match req.value { Some(v) => v, None => Amount::zero() },
            last_update: now,
        }
    }
}

impl Record for Indicator {
    type Request = IndicatorRequest;

    open spec fn key(&self) -> i32 {
        self.id
    }

    open spec fn request_key(req: &IndicatorRequest) -> Option<i32> {
        req.id
    }

    open spec fn spec_finds(&self, req: &IndicatorRequest) -> bool {
        spec_mock_finds(*self, *req)
    }

    open spec fn spec_created(&self, req: &IndicatorRequest, len: nat, now: i64) -> bool {
        spec_mock_created(*self, *req, len, now)
    }

    open spec fn spec_matches(&self, req: &IndicatorRequest) -> bool {
        spec_mock_lists(*self, *req)
    }

    open spec fn spec_patched(&self, req: &IndicatorRequest, now: i64) -> Self {
        spec_mock_update(*self, *req, now)
    }

    open spec fn paging() -> Paging {
        Paging::LimitOnly
    }

    open spec fn spec_missing_id_message() -> Seq<char> {
        "Invalid mock update id"@
    }

    fn record_id(&self) -> (id: i32) {
        self.id
    }

    fn request_id(req: &IndicatorRequest) -> (id: Option<i32>) {
        req.id
    }

    fn finds(&self, req: &IndicatorRequest) -> (b: bool) {
        self.mock_finds(req)
    }

    fn created(req: &IndicatorRequest, len: usize, now: i64) -> (r: Self) {
        Indicator::mock_created(req, len, now)
    }

    fn matches(&self, req: &IndicatorRequest) -> (b: bool) {
        self.mock_lists(req)
    }

    fn patched(&self, req: &IndicatorRequest, now: i64) -> (r: Self) {
        self.mock_update(req, now)
    }

    fn listing_paging() -> (p: Paging) {
        Paging::LimitOnly
    }

    fn missing_id_message() -> (m: String) {
        String::from_str("Invalid mock update id")
    }

    fn duplicate(&self) -> (r: Self) {
        Indicator::duplicate(self)
    }

    proof fn lemma_patch_keeps_key(&self, req: &IndicatorRequest, now: i64) {
    }
}

} // verus!
