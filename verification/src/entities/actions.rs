use vstd::prelude::*;

use crate::amount::Amount;
use crate::entities::common::{clone_text, empty_text, text_is};
use crate::query::{build_plan, order_by_name, spec_plan, options_shape, ListingDefaults, OrderDirection, QueryOptions, QueryPlan};
use crate::text::text_eq;

verus! {

/// A stored action: what a strategy does (buy or sell, a fixed value or a percentage, in the base or the quote asset) on a pair.
pub struct Action {
    pub id: i32,
    pub strategy_id: i32,
    pub is_active: bool,
    pub is_sell: bool,
    pub is_quote_asset: bool,
    pub is_percentage: bool,
    pub value: Amount,
    pub pair_id: i32,
    pub last_update: i64,
}

/// A request on the actions table: every field that is set selects or changes.
pub struct ActionRequest {
    pub id: Option<i32>,
    pub strategy_id: Option<i32>,
    pub is_active: Option<bool>,
    pub is_sell: Option<bool>,
    pub is_quote_asset: Option<bool>,
    pub is_percentage: Option<bool>,
    pub value: Option<Amount>,
    pub pair_id: Option<i32>,
}

/// The columns of the actions table.
#[derive(Debug, Clone, Copy, PartialEq, Eq, Structural)]
pub enum ActionColumn {
    Id,
    StrategyId,
    IsActive,
    IsSell,
    IsQuoteAsset,
    IsPercentage,
    Value,
    PairId,
    LastUpdate,
}

/// The column a listing may be ordered by, from its name.
pub open spec fn spec_parse_order_column(value: Seq<char>) -> Option<ActionColumn> {
    if value == "id"@ {
        Some(ActionColumn::Id)
    } else if value == "strategy_id"@ {
        Some(ActionColumn::StrategyId)
    } else if value == "is_active"@ {
        Some(ActionColumn::IsActive)
    } else if value == "is_sell"@ {
        Some(ActionColumn::IsSell)
    } else if value == "is_quote_asset"@ {
        Some(ActionColumn::IsQuoteAsset)
    } else if value == "is_percentage"@ {
        Some(ActionColumn::IsPercentage)
    } else if value == "value"@ {
        Some(ActionColumn::Value)
    } else if value == "pair_id"@ {
        Some(ActionColumn::PairId)
    } else if value == "last_update"@ {
        Some(ActionColumn::LastUpdate)
    } else {
        None
    }
}

/// Each column name reads as its own column.
pub proof fn lemma_column_names_read_back()
    ensures
        spec_parse_order_column("id"@) == Some(ActionColumn::Id),
        spec_parse_order_column("strategy_id"@) == Some(ActionColumn::StrategyId),
        spec_parse_order_column("is_active"@) == Some(ActionColumn::IsActive),
        spec_parse_order_column("is_sell"@) == Some(ActionColumn::IsSell),
        spec_parse_order_column("is_quote_asset"@) == Some(ActionColumn::IsQuoteAsset),
        spec_parse_order_column("is_percentage"@) == Some(ActionColumn::IsPercentage),
        spec_parse_order_column("value"@) == Some(ActionColumn::Value),
        spec_parse_order_column("pair_id"@) == Some(ActionColumn::PairId),
        spec_parse_order_column("last_update"@) == Some(ActionColumn::LastUpdate),
{
    reveal_strlit("id");
    assert("id"@.len() == 2);
    reveal_strlit("strategy_id");
    assert("strategy_id"@.len() == 11);
    reveal_strlit("is_active");
    assert("is_active"@.len() == 9);
    reveal_strlit("is_sell");
    assert("is_sell"@.len() == 7);
    reveal_strlit("is_quote_asset");
    assert("is_quote_asset"@.len() == 14);
    reveal_strlit("is_percentage");
    assert("is_percentage"@.len() == 13);
    reveal_strlit("value");
    assert("value"@.len() == 5);
    reveal_strlit("pair_id");
    assert("pair_id"@.len() == 7);
    reveal_strlit("last_update");
    assert("last_update"@.len() == 11);
    assert("pair_id"@[0] != "is_sell"@[0]);
    assert("last_update"@[0] != "strategy_id"@[0]);
}

/// Reads the name of a column a listing may be ordered by; other names are ignored.
pub fn parse_order_column(value: &str) -> (res: Option<ActionColumn>)
    ensures
        res == spec_parse_order_column(value@),
{
    if text_eq(value, "id") {
        Some(ActionColumn::Id)
    } else if text_eq(value, "strategy_id") {
        Some(ActionColumn::StrategyId)
    } else if text_eq(value, "is_active") {
        Some(ActionColumn::IsActive)
    } else if text_eq(value, "is_sell") {
        Some(ActionColumn::IsSell)
    } else if text_eq(value, "is_quote_asset") {
        Some(ActionColumn::IsQuoteAsset)
    } else if text_eq(value, "is_percentage") {
        Some(ActionColumn::IsPercentage)
    } else if text_eq(value, "value") {
        Some(ActionColumn::Value)
    } else if text_eq(value, "pair_id") {
        Some(ActionColumn::PairId)
    } else if text_eq(value, "last_update") {
        Some(ActionColumn::LastUpdate)
    } else {
        None
    }
}

/// How the actions listing reads its table before the request's options apply.
pub open spec fn spec_listing_defaults() -> ListingDefaults<ActionColumn> {
    ListingDefaults { limit: None, primary: None, direction: OrderDirection::Asc }
}

pub fn listing_defaults() -> (res: ListingDefaults<ActionColumn>)
    ensures
        res == spec_listing_defaults(),
{
    ListingDefaults { limit: None, primary: None, direction: OrderDirection::Asc }
}

/// The plan of a listing of the actions table with these options.
pub fn plan_query(query: &Option<QueryOptions>) -> (res: QueryPlan<ActionColumn>)
    ensures
        (res.limit, res.offset, res.ordering@) == spec_plan(
            spec_listing_defaults(),
            options_shape(*query),
            match query {
                Some(q) => match q.order_by {
                    Some(name) => spec_parse_order_column(name@),
                    None => None,
                },
                None => None,
            },
        ),
{
    let column = match order_by_name(query) {
        Some(name) => parse_order_column(name),
        None => None,
    };
    build_plan(&listing_defaults(), query, column)
}

/// Whether `r` is the record an insert request creates under id `id` at time `now`: unset fields take their defaults; the update time is `now`.
pub open spec fn spec_is_new_record(r: Action, req: ActionRequest, id: i32, now: i64) -> bool {
    &&& r.id == (id)
    &&& r.strategy_id == (match req.strategy_id { Some(v) => v, None => 0i32 })
    &&& r.is_active == (match req.is_active { Some(v) => v, None => false })
    &&& r.is_sell == (match req.is_sell { Some(v) => v, None => false })
    &&& r.is_quote_asset == (match req.is_quote_asset { Some(v) => v, None => false })
    &&& r.is_percentage == (match req.is_percentage { Some(v) => v, None => false })
    &&& r.value == (match req.value { Some(v) => v, None => Amount::spec_zero() })
    &&& r.pair_id == (match req.pair_id { Some(v) => v, None => 0i32 })
    &&& r.last_update == (now)
}

pub fn new_record(req: &ActionRequest, id: i32, now: i64) -> (res: Action)
    ensures
        spec_is_new_record(res, *req, id, now),
{
    Action {
        id: id,
        strategy_id: match req.strategy_id { Some(v) => v, None => 0i32 },
        is_active: match req.is_active { Some(v) => v, None => false },
        is_sell: match req.is_sell { Some(v) => v, None => false },
        is_quote_asset: match req.is_quote_asset { Some(v) => v, None => false },
        is_percentage: match req.is_percentage { Some(v) => v, None => false },
        value: match req.value { Some(v) => v, None => Amount::zero() },
        pair_id: match req.pair_id { Some(v) => v, None => 0i32 },
        last_update: now,
    }
}

/// A new record has the id it is given, each field an insert request sets
/// at the request's value and each other field at its default (the dates the
/// table fills at the time of the insert).
pub proof fn lemma_new_record_fields(r: Action, req: ActionRequest, id: i32, now: i64)
    requires
        spec_is_new_record(r, req, id, now),
    ensures
        r.id == id,
        req.strategy_id matches Some(v) ==> r.strategy_id == v,
        req.strategy_id is None ==> r.strategy_id == 0i32,
        req.is_active matches Some(v) ==> r.is_active == v,
        req.is_active is None ==> r.is_active == false,
        req.is_sell matches Some(v) ==> r.is_sell == v,
        req.is_sell is None ==> r.is_sell == false,
        req.is_quote_asset matches Some(v) ==> r.is_quote_asset == v,
        req.is_quote_asset is None ==> r.is_quote_asset == false,
        req.is_percentage matches Some(v) ==> r.is_percentage == v,
        req.is_percentage is None ==> r.is_percentage == false,
        req.value matches Some(v) ==> r.value == v,
        req.value is None ==> r.value == Amount::spec_zero(),
        req.pair_id matches Some(v) ==> r.pair_id == v,
        req.pair_id is None ==> r.pair_id == 0i32,
        r.last_update == now,
{
}

/// Whether a single-record request selects `m` (the conditions of a lookup).
pub open spec fn spec_selects(m: Action, req: ActionRequest) -> bool {
    &&& (match req.id { Some(v) => m.id == v, None => true })
    &&& (match req.strategy_id { Some(v) => m.strategy_id == v, None => true })
    &&& (match req.pair_id { Some(v) => m.pair_id == v, None => true })
}

/// Whether a listing request selects `m` (the conditions of a listing).
pub open spec fn spec_lists(m: Action, req: ActionRequest) -> bool {
    &&& (match req.id { Some(v) => m.id == v, None => true })
    &&& (match req.strategy_id { Some(v) => m.strategy_id == v, None => true })
    &&& (match req.is_active { Some(v) => m.is_active == v, None => true })
    &&& (match req.pair_id { Some(v) => m.pair_id == v, None => true })
}

/// A single-record request keeps only records that agree with it: a record it keeps has, in
/// each field it sets among `id`, `strategy_id`, `pair_id`, the value the request sets
/// (where an empty or non-positive value sets no condition). The blank
/// request keeps every record, and a kept record is still kept when a field
/// of the request is set to that record's own value.
pub proof fn lemma_selects_filters(m: Action, req: ActionRequest)
    ensures
        spec_selects(m, (ActionRequest { id: None, strategy_id: None, is_active: None, is_sell: None, is_quote_asset: None, is_percentage: None, value: None, pair_id: None })),
        req.id matches Some(v) ==> (spec_selects(m, req) ==> m.id == v),
        req.strategy_id matches Some(v) ==> (spec_selects(m, req) ==> m.strategy_id == v),
        req.pair_id matches Some(v) ==> (spec_selects(m, req) ==> m.pair_id == v),
        spec_selects(m, req) ==> spec_selects(m, (ActionRequest { id: Some(m.id), ..req })),
        spec_selects(m, req) ==> spec_selects(m, (ActionRequest { strategy_id: Some(m.strategy_id), ..req })),
        spec_selects(m, req) ==> spec_selects(m, (ActionRequest { pair_id: Some(m.pair_id), ..req })),
{
}

/// A listing request keeps only records that agree with it: a record it keeps has, in
/// each field it sets among `id`, `strategy_id`, `is_active`, `pair_id`, the value the request sets
/// (where an empty or non-positive value sets no condition). The blank
/// request keeps every record, and a kept record is still kept when a field
/// of the request is set to that record's own value.
pub proof fn lemma_lists_filters(m: Action, req: ActionRequest)
    ensures
        spec_lists(m, (ActionRequest { id: None, strategy_id: None, is_active: None, is_sell: None, is_quote_asset: None, is_percentage: None, value: None, pair_id: None })),
        req.id matches Some(v) ==> (spec_lists(m, req) ==> m.id == v),
        req.strategy_id matches Some(v) ==> (spec_lists(m, req) ==> m.strategy_id == v),
        req.is_active matches Some(v) ==> (spec_lists(m, req) ==> m.is_active == v),
        req.pair_id matches Some(v) ==> (spec_lists(m, req) ==> m.pair_id == v),
        spec_lists(m, req) ==> spec_lists(m, (ActionRequest { id: Some(m.id), ..req })),
        spec_lists(m, req) ==> spec_lists(m, (ActionRequest { strategy_id: Some(m.strategy_id), ..req })),
        spec_lists(m, req) ==> spec_lists(m, (ActionRequest { is_active: Some(m.is_active), ..req })),
        spec_lists(m, req) ==> spec_lists(m, (ActionRequest { pair_id: Some(m.pair_id), ..req })),
{
}

/// `m` after an update request at time `now`: every field the request sets is replaced, and the update time becomes `now`.
pub open spec fn spec_apply_update(m: Action, req: ActionRequest, now: i64) -> Action {
    Action {
        id: m.id,
        strategy_id: match req.strategy_id { Some(v) => v, None => m.strategy_id },
        is_active: match req.is_active { Some(v) => v, None => m.is_active },
        is_sell: match req.is_sell { Some(v) => v, None => m.is_sell },
        is_quote_asset: match req.is_quote_asset { Some(v) => v, None => m.is_quote_asset },
        is_percentage: match req.is_percentage { Some(v) => v, None => m.is_percentage },
        value: match req.value { Some(v) => v, None => m.value },
        pair_id: match req.pair_id { Some(v) => v, None => m.pair_id },
        last_update: now,
    }
}

/// An update request: each field the request sets among those it may change takes the
/// request's value, an unset one keeps the record's, the other fields stay as
/// they are (the update time becomes `now`), and doing it twice is doing it once.
pub proof fn lemma_apply_update_fields(m: Action, req: ActionRequest, now: i64)
    ensures
        spec_apply_update(m, req, now).id == m.id,
        req.strategy_id matches Some(v) ==> spec_apply_update(m, req, now).strategy_id == v,
        req.strategy_id is None ==> spec_apply_update(m, req, now).strategy_id == m.strategy_id,
        req.is_active matches Some(v) ==> spec_apply_update(m, req, now).is_active == v,
        req.is_active is None ==> spec_apply_update(m, req, now).is_active == m.is_active,
        req.is_sell matches Some(v) ==> spec_apply_update(m, req, now).is_sell == v,
        req.is_sell is None ==> spec_apply_update(m, req, now).is_sell == m.is_sell,
        req.is_quote_asset matches Some(v) ==> spec_apply_update(m, req, now).is_quote_asset == v,
        req.is_quote_asset is None ==> spec_apply_update(m, req, now).is_quote_asset == m.is_quote_asset,
        req.is_percentage matches Some(v) ==> spec_apply_update(m, req, now).is_percentage == v,
        req.is_percentage is None ==> spec_apply_update(m, req, now).is_percentage == m.is_percentage,
        req.value matches Some(v) ==> spec_apply_update(m, req, now).value == v,
        req.value is None ==> spec_apply_update(m, req, now).value == m.value,
        req.pair_id matches Some(v) ==> spec_apply_update(m, req, now).pair_id == v,
        req.pair_id is None ==> spec_apply_update(m, req, now).pair_id == m.pair_id,
        spec_apply_update(m, req, now).last_update == now,
        spec_apply_update(spec_apply_update(m, req, now), req, now) == spec_apply_update(m, req, now),
{
}

/// Whether `r` is the record with every field at its default.
pub open spec fn spec_is_default(r: Action) -> bool {
    &&& r.id == 0i32
    &&& r.strategy_id == 0i32
    &&& r.is_active == false
    &&& r.is_sell == false
    &&& r.is_quote_asset == false
    &&& r.is_percentage == false
    &&& r.value == Amount::spec_zero()
    &&& r.pair_id == 0i32
    &&& r.last_update == 0i64
}

impl Action {
    /// The record with every field at its default.
    pub fn default_record() -> (res: Self)
        ensures
            spec_is_default(res),
    {
        Action {
            id: 0i32,
            strategy_id: 0i32,
            is_active: false,
            is_sell: false,
            is_quote_asset: false,
            is_percentage: false,
            value: Amount::zero(),
            pair_id: 0i32,
            last_update: 0i64,
        }
    }

    pub fn duplicate(&self) -> (res: Self)
        ensures
            res == *self,
    {
        Action {
            id: self.id,
            strategy_id: self.strategy_id,
            is_active: self.is_active,
            is_sell: self.is_sell,
            is_quote_asset: self.is_quote_asset,
            is_percentage: self.is_percentage,
            value: self.value,
            pair_id: self.pair_id,
            last_update: self.last_update,
        }
    }

    /// This record after an update request at time `now`.
    pub fn apply_update(&self, req: &ActionRequest, now: i64) -> (res: Self)
        ensures
            res == spec_apply_update(*self, *req, now),
    {
        Action {
            id: self.id,
            strategy_id: match req.strategy_id { Some(v) => v, None => self.strategy_id },
            is_active: match req.is_active { Some(v) => v, None => self.is_active },
            is_sell: match req.is_sell { Some(v) => v, None => self.is_sell },
            is_quote_asset: match req.is_quote_asset { Some(v) => v, None => self.is_quote_asset },
            is_percentage: match req.is_percentage { Some(v) => v, None => self.is_percentage },
            value: match req.value { Some(v) => v, None => self.value },
            pair_id: match req.pair_id { Some(v) => v, None => self.pair_id },
            last_update: now,
        }
    }

    pub fn selects(&self, req: &ActionRequest) -> (res: bool)
        ensures
            res == spec_selects(*self, *req),
    {
        (match req.id { Some(v) => self.id == v, None => true })
        && (match req.strategy_id { Some(v) => self.strategy_id == v, None => true })
        && (match req.pair_id { Some(v) => self.pair_id == v, None => true })
    }

    pub fn lists(&self, req: &ActionRequest) -> (res: bool)
        ensures
            res == spec_lists(*self, *req),
    {
        (match req.id { Some(v) => self.id == v, None => true })
        && (match req.strategy_id { Some(v) => self.strategy_id == v, None => true })
        && (match req.is_active { Some(v) => self.is_active == v, None => true })
        && (match req.pair_id { Some(v) => self.pair_id == v, None => true })
    }

}

impl ActionRequest {
    /// The request with no field set.
    pub fn blank() -> (res: Self)
        ensures
            res.id is None,
            res.strategy_id is None,
            res.is_active is None,
            res.is_sell is None,
            res.is_quote_asset is None,
            res.is_percentage is None,
            res.value is None,
            res.pair_id is None,
    {
        ActionRequest { id: None, strategy_id: None, is_active: None, is_sell: None, is_quote_asset: None, is_percentage: None, value: None, pair_id: None }
    }

    pub fn duplicate(&self) -> (res: Self)
        ensures
            res == *self,
    {
        ActionRequest {
            id: self.id,
            strategy_id: self.strategy_id,
            is_active: self.is_active,
            is_sell: self.is_sell,
            is_quote_asset: self.is_quote_asset,
            is_percentage: self.is_percentage,
            value: self.value,
            pair_id: self.pair_id,
        }
    }
}

} // verus!
