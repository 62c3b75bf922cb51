use vstd::prelude::*;

use crate::amount::Amount;
use crate::entities::common::{clone_text, empty_text, text_is};
use crate::query::{build_plan, order_by_name, spec_plan, options_shape, ListingDefaults, OrderDirection, QueryOptions, QueryPlan};
use crate::repository::{Paging, Record};
use crate::text::text_eq;

verus! {

/// A stored order of a strategy: a buy or a sell of a base asset against a quote asset.
pub struct Order {
    pub id: i32,
    pub status_id: i32,
    pub creation_date: i64,
    pub update_date: i64,
    pub is_sell: bool,
    pub strategy_id: i32,
    pub base_asset_id: i32,
    pub base_asset_amount: Amount,
    pub quote_asset_id: i32,
    pub quote_asset_amount: Amount,
    pub price_entry: Amount,
    pub price_target: Amount,
    pub price_abort: Amount,
}

/// A request on the orders table: every field that is set selects or changes.
pub struct OrderRequest {
    pub id: Option<i32>,
    pub status_id: Option<i32>,
    pub is_sell: Option<bool>,
    pub strategy_id: Option<i32>,
    pub base_asset_id: Option<i32>,
    pub base_asset_amount: Option<Amount>,
    pub quote_asset_id: Option<i32>,
    pub quote_asset_amount: Option<Amount>,
    pub price_entry: Option<Amount>,
    pub price_target: Option<Amount>,
    pub price_abort: Option<Amount>,
}

/// The columns of the orders table.
#[derive(Debug, Clone, Copy, PartialEq, Eq, Structural)]
pub enum OrderColumn {
    Id,
    StatusId,
    CreationDate,
    UpdateDate,
    IsSell,
    StrategyId,
    BaseAssetId,
    BaseAssetAmount,
    QuoteAssetId,
    QuoteAssetAmount,
    PriceEntry,
    PriceTarget,
    PriceAbort,
}

/// The column a listing may be ordered by, from its name.
pub open spec fn spec_parse_order_column(value: Seq<char>) -> Option<OrderColumn> {
    if value == "id"@ {
        Some(OrderColumn::Id)
    } else if value == "status_id"@ {
        Some(OrderColumn::StatusId)
    } else if value == "creation_date"@ {
        Some(OrderColumn::CreationDate)
    } else if value == "update_date"@ {
        Some(OrderColumn::UpdateDate)
    } else if value == "is_sell"@ {
        Some(OrderColumn::IsSell)
    } else if value == "strategy_id"@ {
        Some(OrderColumn::StrategyId)
    } else if value == "base_asset_id"@ {
        Some(OrderColumn::BaseAssetId)
    } else if value == "base_asset_amount"@ {
        Some(OrderColumn::BaseAssetAmount)
    } else if value == "quote_asset_id"@ {
        Some(OrderColumn::QuoteAssetId)
    } else if value == "quote_asset_amount"@ {
        Some(OrderColumn::QuoteAssetAmount)
    } else if value == "price_entry"@ {
        Some(OrderColumn::PriceEntry)
    } else if value == "price_target"@ {
        Some(OrderColumn::PriceTarget)
    } else if value == "price_abort"@ {
        Some(OrderColumn::PriceAbort)
    } else {
        None
    }
}

/// Each column name reads as its own column.
pub proof fn lemma_column_names_read_back()
    ensures
        spec_parse_order_column("id"@) == Some(OrderColumn::Id),
        spec_parse_order_column("status_id"@) == Some(OrderColumn::StatusId),
        spec_parse_order_column("creation_date"@) == Some(OrderColumn::CreationDate),
        spec_parse_order_column("update_date"@) == Some(OrderColumn::UpdateDate),
        spec_parse_order_column("is_sell"@) == Some(OrderColumn::IsSell),
        spec_parse_order_column("strategy_id"@) == Some(OrderColumn::StrategyId),
        spec_parse_order_column("base_asset_id"@) == Some(OrderColumn::BaseAssetId),
        spec_parse_order_column("base_asset_amount"@) == Some(OrderColumn::BaseAssetAmount),
        spec_parse_order_column("quote_asset_id"@) == Some(OrderColumn::QuoteAssetId),
        spec_parse_order_column("quote_asset_amount"@) == Some(OrderColumn::QuoteAssetAmount),
        spec_parse_order_column("price_entry"@) == Some(OrderColumn::PriceEntry),
        spec_parse_order_column("price_target"@) == Some(OrderColumn::PriceTarget),
        spec_parse_order_column("price_abort"@) == Some(OrderColumn::PriceAbort),
{
    reveal_strlit("id");
    assert("id"@.len() == 2);
    reveal_strlit("status_id");
    assert("status_id"@.len() == 9);
    reveal_strlit("creation_date");
    assert("creation_date"@.len() == 13);
    reveal_strlit("update_date");
    assert("update_date"@.len() == 11);
    reveal_strlit("is_sell");
    assert("is_sell"@.len() == 7);
    reveal_strlit("strategy_id");
    assert("strategy_id"@.len() == 11);
    reveal_strlit("base_asset_id");
    assert("base_asset_id"@.len() == 13);
    reveal_strlit("base_asset_amount");
    assert("base_asset_amount"@.len() == 17);
    reveal_strlit("quote_asset_id");
    assert("quote_asset_id"@.len() == 14);
    reveal_strlit("quote_asset_amount");
    assert("quote_asset_amount"@.len() == 18);
    reveal_strlit("price_entry");
    assert("price_entry"@.len() == 11);
    reveal_strlit("price_target");
    assert("price_target"@.len() == 12);
    reveal_strlit("price_abort");
    assert("price_abort"@.len() == 11);
    assert("strategy_id"@[0] != "update_date"@[0]);
    assert("base_asset_id"@[0] != "creation_date"@[0]);
    assert("price_entry"@[0] != "update_date"@[0]);
    assert("price_entry"@[0] != "strategy_id"@[0]);
    assert("price_abort"@[0] != "update_date"@[0]);
    assert("price_abort"@[0] != "strategy_id"@[0]);
    assert("price_abort"@[6] != "price_entry"@[6]);
}

/// Reads the name of a column a listing may be ordered by; other names are ignored.
pub fn parse_order_column(value: &str) -> (res: Option<OrderColumn>)
    ensures
        res == spec_parse_order_column(value@),
{
    if text_eq(value, "id") {
        Some(OrderColumn::Id)
    } else if text_eq(value, "status_id") {
        Some(OrderColumn::StatusId)
    } else if text_eq(value, "creation_date") {
        Some(OrderColumn::CreationDate)
    } else if text_eq(value, "update_date") {
        Some(OrderColumn::UpdateDate)
    } else if text_eq(value, "is_sell") {
        Some(OrderColumn::IsSell)
    } else if text_eq(value, "strategy_id") {
        Some(OrderColumn::StrategyId)
    } else if text_eq(value, "base_asset_id") {
        Some(OrderColumn::BaseAssetId)
    } else if text_eq(value, "base_asset_amount") {
        Some(OrderColumn::BaseAssetAmount)
    } else if text_eq(value, "quote_asset_id") {
        Some(OrderColumn::QuoteAssetId)
    } else if text_eq(value, "quote_asset_amount") {
        Some(OrderColumn::QuoteAssetAmount)
    } else if text_eq(value, "price_entry") {
        Some(OrderColumn::PriceEntry)
    } else if text_eq(value, "price_target") {
        Some(OrderColumn::PriceTarget)
    } else if text_eq(value, "price_abort") {
        Some(OrderColumn::PriceAbort)
    } else {
        None
    }
}

/// How the orders listing reads its table before the request's options apply.
pub open spec fn spec_listing_defaults() -> ListingDefaults<OrderColumn> {
    ListingDefaults { limit: Some(20u64), primary: Some((OrderColumn::Id, OrderDirection::Desc)), direction: OrderDirection::Desc }
}

pub fn listing_defaults() -> (res: ListingDefaults<OrderColumn>)
    ensures
        res == spec_listing_defaults(),
{
    ListingDefaults { limit: Some(20u64), primary: Some((OrderColumn::Id, OrderDirection::Desc)), direction: OrderDirection::Desc }
}

/// The plan of a listing of the orders table with these options.
pub fn plan_query(query: &Option<QueryOptions>) -> (res: QueryPlan<OrderColumn>)
    ensures
        (res.limit, res.offset, res.ordering@) == spec_plan(
            spec_listing_defaults(),
            options_shape(*query),
            match query {
                Some(q) => match q.order_by {
                    Some(name) => spec_parse_order_column(name@),
                    None => None,
                },
                None => None,
            },
        ),
{
    let column = match order_by_name(query) {
        Some(name) => parse_order_column(name),
        None => None,
    };
    build_plan(&listing_defaults(), query, column)
}

/// Whether `r` is the record an insert request creates under id `id` at time `now`: unset fields take their defaults; both dates are `now`.
pub open spec fn spec_is_new_record(r: Order, req: OrderRequest, id: i32, now: i64) -> bool {
    &&& r.id == (id)
    &&& r.status_id == (match req.status_id { Some(v) => v, None => 0i32 })
    &&& r.creation_date == (now)
    &&& r.update_date == (now)
    &&& r.is_sell == (match req.is_sell { Some(v) => v, None => false })
    &&& r.strategy_id == (match req.strategy_id { Some(v) => v, None => 0i32 })
    &&& r.base_asset_id == (match req.base_asset_id { Some(v) => v, None => 0i32 })
    &&& r.base_asset_amount == (match req.base_asset_amount { Some(v) => v, None => Amount::spec_zero() })
    &&& r.quote_asset_id == (match req.quote_asset_id { Some(v) => v, None => 0i32 })
    &&& r.quote_asset_amount == (match req.quote_asset_amount { Some(v) => v, None => Amount::spec_zero() })
    &&& r.price_entry == (match req.price_entry { Some(v) => v, None => Amount::spec_zero() })
    &&& r.price_target == (match req.price_target { Some(v) => v, None => Amount::spec_zero() })
    &&& r.price_abort == (match req.price_abort { Some(v) => v, None => Amount::spec_zero() })
}

pub fn new_record(req: &OrderRequest, id: i32, now: i64) -> (res: Order)
    ensures
        spec_is_new_record(res, *req, id, now),
{
    Order {
        id: id,
        status_id: match req.status_id { Some(v) => v, None => 0i32 },
        creation_date: now,
        update_date: now,
        is_sell: match req.is_sell { Some(v) => v, None => false },
        strategy_id: match req.strategy_id { Some(v) => v, None => 0i32 },
        base_asset_id: match req.base_asset_id { Some(v) => v, None => 0i32 },
        base_asset_amount: match req.base_asset_amount { Some(v) => v, None => Amount::zero() },
        quote_asset_id: match req.quote_asset_id { Some(v) => v, None => 0i32 },
        quote_asset_amount: match req.quote_asset_amount { Some(v) => v, None => Amount::zero() },
        price_entry: match req.price_entry { Some(v) => v, None => Amount::zero() },
        price_target: match req.price_target { Some(v) => v, None => Amount::zero() },
        price_abort: match req.price_abort { Some(v) => v, None => Amount::zero() },
    }
}

/// A new record has the id it is given, each field an insert request sets
/// at the request's value and each other field at its default (the dates the
/// table fills at the time of the insert).
pub proof fn lemma_new_record_fields(r: Order, req: OrderRequest, id: i32, now: i64)
    requires
        spec_is_new_record(r, req, id, now),
    ensures
        r.id == id,
        req.status_id matches Some(v) ==> r.status_id == v,
        req.status_id is None ==> r.status_id == 0i32,
        r.creation_date == now,
        r.update_date == now,
        req.is_sell matches Some(v) ==> r.is_sell == v,
        req.is_sell is None ==> r.is_sell == false,
        req.strategy_id matches Some(v) ==> r.strategy_id == v,
        req.strategy_id is None ==> r.strategy_id == 0i32,
        req.base_asset_id matches Some(v) ==> r.base_asset_id == v,
        req.base_asset_id is None ==> r.base_asset_id == 0i32,
        req.base_asset_amount matches Some(v) ==> r.base_asset_amount == v,
        req.base_asset_amount is None ==> r.base_asset_amount == Amount::spec_zero(),
        req.quote_asset_id matches Some(v) ==> r.quote_asset_id == v,
        req.quote_asset_id is None ==> r.quote_asset_id == 0i32,
        req.quote_asset_amount matches Some(v) ==> r.quote_asset_amount == v,
        req.quote_asset_amount is None ==> r.quote_asset_amount == Amount::spec_zero(),
        req.price_entry matches Some(v) ==> r.price_entry == v,
        req.price_entry is None ==> r.price_entry == Amount::spec_zero(),
        req.price_target matches Some(v) ==> r.price_target == v,
        req.price_target is None ==> r.price_target == Amount::spec_zero(),
        req.price_abort matches Some(v) ==> r.price_abort == v,
        req.price_abort is None ==> r.price_abort == Amount::spec_zero(),
{
}

/// Whether a single-record request selects `m` (the conditions of a lookup).
pub open spec fn spec_selects(m: Order, req: OrderRequest) -> bool {
    &&& (match req.id { Some(v) => m.id == v, None => true })
}

/// Whether a listing request selects `m` (the conditions of a listing).
pub open spec fn spec_lists(m: Order, req: OrderRequest) -> bool {
    &&& (match req.id { Some(v) => m.id == v, None => true })
    &&& (match req.status_id { Some(v) => m.status_id == v, None => true })
    &&& (match req.is_sell { Some(v) => m.is_sell == v, None => true })
    &&& (match req.strategy_id { Some(v) => m.strategy_id == v, None => true })
    &&& (match req.base_asset_id { Some(v) => m.base_asset_id == v, None => true })
    &&& (match req.quote_asset_id { Some(v) => m.quote_asset_id == v, None => true })
}

/// A single-record request keeps only records that agree with it: a record it keeps has, in
/// each field it sets among `id`, the value the request sets
/// (where an empty or non-positive value sets no condition). The blank
/// request keeps every record, and a kept record is still kept when a field
/// of the request is set to that record's own value.
pub proof fn lemma_selects_filters(m: Order, req: OrderRequest)
    ensures
        spec_selects(m, (OrderRequest { id: None, status_id: None, is_sell: None, strategy_id: None, base_asset_id: None, base_asset_amount: None, quote_asset_id: None, quote_asset_amount: None, price_entry: None, price_target: None, price_abort: None })),
        req.id matches Some(v) ==> (spec_selects(m, req) ==> m.id == v),
        spec_selects(m, req) ==> spec_selects(m, (OrderRequest { id: Some(m.id), ..req })),
{
}

/// A listing request keeps only records that agree with it: a record it keeps has, in
/// each field it sets among `id`, `status_id`, `is_sell`, `strategy_id`, `base_asset_id`, `quote_asset_id`, the value the request sets
/// (where an empty or non-positive value sets no condition). The blank
/// request keeps every record, and a kept record is still kept when a field
/// of the request is set to that record's own value.
pub proof fn lemma_lists_filters(m: Order, req: OrderRequest)
    ensures
        spec_lists(m, (OrderRequest { id: None, status_id: None, is_sell: None, strategy_id: None, base_asset_id: None, base_asset_amount: None, quote_asset_id: None, quote_asset_amount: None, price_entry: None, price_target: None, price_abort: None })),
        req.id matches Some(v) ==> (spec_lists(m, req) ==> m.id == v),
        req.status_id matches Some(v) ==> (spec_lists(m, req) ==> m.status_id == v),
        req.is_sell matches Some(v) ==> (spec_lists(m, req) ==> m.is_sell == v),
        req.strategy_id matches Some(v) ==> (spec_lists(m, req) ==> m.strategy_id == v),
        req.base_asset_id matches Some(v) ==> (spec_lists(m, req) ==> m.base_asset_id == v),
        req.quote_asset_id matches Some(v) ==> (spec_lists(m, req) ==> m.quote_asset_id == v),
        spec_lists(m, req) ==> spec_lists(m, (OrderRequest { id: Some(m.id), ..req })),
        spec_lists(m, req) ==> spec_lists(m, (OrderRequest { status_id: Some(m.status_id), ..req })),
        spec_lists(m, req) ==> spec_lists(m, (OrderRequest { is_sell: Some(m.is_sell), ..req })),
        spec_lists(m, req) ==> spec_lists(m, (OrderRequest { strategy_id: Some(m.strategy_id), ..req })),
        spec_lists(m, req) ==> spec_lists(m, (OrderRequest { base_asset_id: Some(m.base_asset_id), ..req })),
        spec_lists(m, req) ==> spec_lists(m, (OrderRequest { quote_asset_id: Some(m.quote_asset_id), ..req })),
{
}

/// `m` after an update request at time `now`: the status and the two amounts are replaced when the request sets them, and the update time becomes `now`.
pub open spec fn spec_apply_update(m: Order, req: OrderRequest, now: i64) -> Order {
    Order {
        id: m.id,
        status_id: match req.status_id { Some(v) => v, None => m.status_id },
        creation_date: m.creation_date,
        update_date: now,
        is_sell: m.is_sell,
        strategy_id: m.strategy_id,
        base_asset_id: m.base_asset_id,
        base_asset_amount: match req.base_asset_amount { Some(v) => v, None => m.base_asset_amount },
        quote_asset_id: m.quote_asset_id,
        quote_asset_amount: match req.quote_asset_amount { Some(v) => v, None => m.quote_asset_amount },
        price_entry: m.price_entry,
        price_target: m.price_target,
        price_abort: m.price_abort,
    }
}

/// An update request: each field the request sets among those it may change takes the
/// request's value, an unset one keeps the record's, the other fields stay as
/// they are (the update time becomes `now`), and doing it twice is doing it once.
pub proof fn lemma_apply_update_fields(m: Order, req: OrderRequest, now: i64)
    ensures
        spec_apply_update(m, req, now).id == m.id,
        req.status_id matches Some(v) ==> spec_apply_update(m, req, now).status_id == v,
        req.status_id is None ==> spec_apply_update(m, req, now).status_id == m.status_id,
        spec_apply_update(m, req, now).creation_date == m.creation_date,
        spec_apply_update(m, req, now).update_date == now,
        spec_apply_update(m, req, now).is_sell == m.is_sell,
        spec_apply_update(m, req, now).strategy_id == m.strategy_id,
        spec_apply_update(m, req, now).base_asset_id == m.base_asset_id,
        req.base_asset_amount matches Some(v) ==> spec_apply_update(m, req, now).base_asset_amount == v,
        req.base_asset_amount is None ==> spec_apply_update(m, req, now).base_asset_amount == m.base_asset_amount,
        spec_apply_update(m, req, now).quote_asset_id == m.quote_asset_id,
        req.quote_asset_amount matches Some(v) ==> spec_apply_update(m, req, now).quote_asset_amount == v,
        req.quote_asset_amount is None ==> spec_apply_update(m, req, now).quote_asset_amount == m.quote_asset_amount,
        spec_apply_update(m, req, now).price_entry == m.price_entry,
        spec_apply_update(m, req, now).price_target == m.price_target,
        spec_apply_update(m, req, now).price_abort == m.price_abort,
        spec_apply_update(spec_apply_update(m, req, now), req, now) == spec_apply_update(m, req, now),
{
}

/// Whether `r` is the record with every field at its default.
pub open spec fn spec_is_default(r: Order) -> bool {
    &&& r.id == 0i32
    &&& r.status_id == 0i32
    &&& r.creation_date == 0i64
    &&& r.update_date == 0i64
    &&& r.is_sell == false
    &&& r.strategy_id == 0i32
    &&& r.base_asset_id == 0i32
    &&& r.base_asset_amount == Amount::spec_zero()
    &&& r.quote_asset_id == 0i32
    &&& r.quote_asset_amount == Amount::spec_zero()
    &&& r.price_entry == Amount::spec_zero()
    &&& r.price_target == Amount::spec_zero()
    &&& r.price_abort == Amount::spec_zero()
}

impl Order {
    /// The record with every field at its default.
    pub fn default_record() -> (res: Self)
        ensures
            spec_is_default(res),
    {
        Order {
            id: 0i32,
            status_id: 0i32,
            creation_date: 0i64,
            update_date: 0i64,
            is_sell: false,
            strategy_id: 0i32,
            base_asset_id: 0i32,
            base_asset_amount: Amount::zero(),
            quote_asset_id: 0i32,
            quote_asset_amount: Amount::zero(),
            price_entry: Amount::zero(),
            price_target: Amount::zero(),
            price_abort: Amount::zero(),
        }
    }

    pub fn duplicate(&self) -> (res: Self)
        ensures
            res == *self,
    {
        Order {
            id: self.id,
            status_id: self.status_id,
            creation_date: self.creation_date,
            update_date: self.update_date,
            is_sell: self.is_sell,
            strategy_id: self.strategy_id,
            base_asset_id: self.base_asset_id,
            base_asset_amount: self.base_asset_amount,
            quote_asset_id: self.quote_asset_id,
            quote_asset_amount: self.quote_asset_amount,
            price_entry: self.price_entry,
            price_target: self.price_target,
            price_abort: self.price_abort,
        }
    }

    /// This record after an update request at time `now`.
    pub fn apply_update(&self, req: &OrderRequest, now: i64) -> (res: Self)
        ensures
            res == spec_apply_update(*self, *req, now),
    {
        Order {
            id: self.id,
            status_id: match req.status_id { Some(v) => v, None => self.status_id },
            creation_date: self.creation_date,
            update_date: now,
            is_sell: self.is_sell,
            strategy_id: self.strategy_id,
            base_asset_id: self.base_asset_id,
            base_asset_amount: match req.base_asset_amount { Some(v) => v, None => self.base_asset_amount },
            quote_asset_id: self.quote_asset_id,
            quote_asset_amount: match req.quote_asset_amount { Some(v) => v, None => self.quote_asset_amount },
            price_entry: self.price_entry,
            price_target: self.price_target,
            price_abort: self.price_abort,
        }
    }

    pub fn selects(&self, req: &OrderRequest) -> (res: bool)
        ensures
            res == spec_selects(*self, *req),
    {
        (match req.id { Some(v) => self.id == v, None => true })
    }

    pub fn lists(&self, req: &OrderRequest) -> (res: bool)
        ensures
            res == spec_lists(*self, *req),
    {
        (match req.id { Some(v) => self.id == v, None => true })
        && (match req.status_id { Some(v) => self.status_id == v, None => true })
        && (match req.is_sell { Some(v) => self.is_sell == v, None => true })
        && (match req.strategy_id { Some(v) => self.strategy_id == v, None => true })
        && (match req.base_asset_id { Some(v) => self.base_asset_id == v, None => true })
        && (match req.quote_asset_id { Some(v) => self.quote_asset_id == v, None => true })
    }

}

impl OrderRequest {
    /// The request with no field set.
    pub fn blank() -> (res: Self)
        ensures
            res.id is None,
            res.status_id is None,
            res.is_sell is None,
            res.strategy_id is None,
            res.base_asset_id is None,
            res.base_asset_amount is None,
            res.quote_asset_id is None,
            res.quote_asset_amount is None,
            res.price_entry is None,
            res.price_target is None,
            res.price_abort is None,
    {
        OrderRequest { id: None, status_id: None, is_sell: None, strategy_id: None, base_asset_id: None, base_asset_amount: None, quote_asset_id: None, quote_asset_amount: None, price_entry: None, price_target: None, price_abort: None }
    }

    pub fn duplicate(&self) -> (res: Self)
        ensures
            res == *self,
    {
        OrderRequest {
            id: self.id,
            status_id: self.status_id,
            is_sell: self.is_sell,
            strategy_id: self.strategy_id,
            base_asset_id: self.base_asset_id,
            base_asset_amount: self.base_asset_amount,
            quote_asset_id: self.quote_asset_id,
            quote_asset_amount: self.quote_asset_amount,
            price_entry: self.price_entry,
            price_target: self.price_target,
            price_abort: self.price_abort,
        }
    }
}

/// Whether a lookup of the in-memory orders table finds `m`: the record whose id is the request's (0 when it sets none).
pub open spec fn spec_mock_finds(m: Order, req: OrderRequest) -> bool {
    &&& (m.id == (match req.id { Some(v) => v, None => 0i32 }))
}

/// Whether a listing of the in-memory orders table keeps `m`: every record, whatever the request.
pub open spec fn spec_mock_lists(m: Order, req: OrderRequest) -> bool {
    true
}

/// A lookup of the in-memory table finds exactly the record whose id is the
/// request's, and the record with id 0 when the request sets no id.
pub proof fn lemma_mock_finds_by_id(m: Order, req: OrderRequest)
    ensures
        req.id matches Some(v) ==> (spec_mock_finds(m, req) <==> m.id == v),
        req.id is None ==> (spec_mock_finds(m, req) <==> m.id == 0),
{
}

/// A listing of the in-memory table keeps every record, whatever the request.
pub proof fn lemma_mock_lists_keeps_all(m: Order, req: OrderRequest)
    ensures
        spec_mock_lists(m, req),
{
}

/// `m` after an update of the in-memory orders table at time `now`: the request replaces `status_id` where it sets them.
pub open spec fn spec_mock_update(m: Order, req: OrderRequest, now: i64) -> Order {
    Order {
        id: m.id,
        status_id: match req.status_id { Some(v) => v, None => m.status_id },
        creation_date: m.creation_date,
        update_date: m.update_date,
        is_sell: m.is_sell,
        strategy_id: m.strategy_id,
        base_asset_id: m.base_asset_id,
        base_asset_amount: m.base_asset_amount,
        quote_asset_id: m.quote_asset_id,
        quote_asset_amount: m.quote_asset_amount,
        price_entry: m.price_entry,
        price_target: m.price_target,
        price_abort: m.price_abort,
    }
}

/// An update of the in-memory table: each field the request sets among those it may change takes the
/// request's value, an unset one keeps the record's, the other fields stay as
/// they are (the update time becomes `now`), and doing it twice is doing it once.
pub proof fn lemma_mock_update_fields(m: Order, req: OrderRequest, now: i64)
    ensures
        spec_mock_update(m, req, now).id == m.id,
        req.status_id matches Some(v) ==> spec_mock_update(m, req, now).status_id == v,
        req.status_id is None ==> spec_mock_update(m, req, now).status_id == m.status_id,
        spec_mock_update(m, req, now).creation_date == m.creation_date,
        spec_mock_update(m, req, now).update_date == m.update_date,
        spec_mock_update(m, req, now).is_sell == m.is_sell,
        spec_mock_update(m, req, now).strategy_id == m.strategy_id,
        spec_mock_update(m, req, now).base_asset_id == m.base_asset_id,
        spec_mock_update(m, req, now).base_asset_amount == m.base_asset_amount,
        spec_mock_update(m, req, now).quote_asset_id == m.quote_asset_id,
        spec_mock_update(m, req, now).quote_asset_amount == m.quote_asset_amount,
        spec_mock_update(m, req, now).price_entry == m.price_entry,
        spec_mock_update(m, req, now).price_target == m.price_target,
        spec_mock_update(m, req, now).price_abort == m.price_abort,
        spec_mock_update(spec_mock_update(m, req, now), req, now) == spec_mock_update(m, req, now),
{
}

impl Order {
    pub fn mock_finds(&self, req: &OrderRequest) -> (res: bool)
        ensures
            res == spec_mock_finds(*self, *req),
    {
        (self.id == (match req.id { Some(v) => v, None => 0i32 }))
    }

    pub fn mock_lists(&self, req: &OrderRequest) -> (res: bool)
        ensures
            res == spec_mock_lists(*self, *req),
    {
        true
    }

    pub fn mock_update(&self, req: &OrderRequest, now: i64) -> (res: Self)
        ensures
            res == spec_mock_update(*self, *req, now),
    {
        Order {
            id: self.id,
            status_id: match req.status_id { Some(v) => v, None => self.status_id },
            creation_date: self.creation_date,
            update_date: self.update_date,
            is_sell: self.is_sell,
            strategy_id: self.strategy_id,
            base_asset_id: self.base_asset_id,
            base_asset_amount: self.base_asset_amount,
            quote_asset_id: self.quote_asset_id,
            quote_asset_amount: self.quote_asset_amount,
            price_entry: self.price_entry,
            price_target: self.price_target,
            price_abort: self.price_abort,
        }
    }
}

/// Whether `r` is the record the in-memory orders table creates for an insert
/// request when it holds `len` records, at time `now`: its id is the request's id, else 0;
/// the other fields as the rules of this table say.
pub open spec fn spec_mock_created(r: Order, req: OrderRequest, len: nat, now: i64) -> bool {
    &&& r.id == (match req.id { Some(v) => v, None => 0i32 })
    &&& r.status_id == (match req.status_id { Some(v) => v, None => 0i32 })
    &&& r.creation_date == now
    &&& r.update_date == now
    &&& r.is_sell == (match req.is_sell { Some(v) => v, None => false })
    &&& r.strategy_id == (match req.strategy_id { Some(v) => v, None => 0i32 })
    &&& r.base_asset_id == (match req.base_asset_id { Some(v) => v, None => 0i32 })
    &&& r.base_asset_amount == (match req.base_asset_amount { Some(v) => v, None => Amount::spec_zero() })
    &&& r.quote_asset_id == (match req.quote_asset_id { Some(v) => v, None => 0i32 })
    &&& r.quote_asset_amount == (match req.quote_asset_amount { Some(v) => v, None => Amount::spec_zero() })
    &&& r.price_entry == (match req.price_entry { Some(v) => v, None => Amount::spec_zero() })
    &&& r.price_target == (match req.price_target { Some(v) => v, None => Amount::spec_zero() })
    &&& r.price_abort == (match req.price_abort { Some(v) => v, None => Amount::spec_zero() })
}

/// A record the in-memory table creates has the id its rule gives (the request's id, else 0)
/// and each other field as the table's rules say: the request's value where it
/// sets one, else the default.
pub proof fn lemma_mock_created_fields(r: Order, req: OrderRequest, len: nat, now: i64)
    requires
        len < 2147483647,
        spec_mock_created(r, req, len, now),
    ensures
        req.id matches Some(v) ==> r.id == v,
        req.id is None ==> r.id == 0,
        req.status_id matches Some(v) ==> r.status_id == v,
        req.status_id is None ==> r.status_id == 0i32,
        r.creation_date == now,
        r.update_date == now,
        req.is_sell matches Some(v) ==> r.is_sell == v,
        req.is_sell is None ==> r.is_sell == false,
        req.strategy_id matches Some(v) ==> r.strategy_id == v,
        req.strategy_id is None ==> r.strategy_id == 0i32,
        req.base_asset_id matches Some(v) ==> r.base_asset_id == v,
        req.base_asset_id is None ==> r.base_asset_id == 0i32,
        req.base_asset_amount matches Some(v) ==> r.base_asset_amount == v,
        req.base_asset_amount is None ==> r.base_asset_amount == Amount::spec_zero(),
        req.quote_asset_id matches Some(v) ==> r.quote_asset_id == v,
        req.quote_asset_id is None ==> r.quote_asset_id == 0i32,
        req.quote_asset_amount matches Some(v) ==> r.quote_asset_amount == v,
        req.quote_asset_amount is None ==> r.quote_asset_amount == Amount::spec_zero(),
        req.price_entry matches Some(v) ==> r.price_entry == v,
        req.price_entry is None ==> r.price_entry == Amount::spec_zero(),
        req.price_target matches Some(v) ==> r.price_target == v,
        req.price_target is None ==> r.price_target == Amount::spec_zero(),
        req.price_abort matches Some(v) ==> r.price_abort == v,
        req.price_abort is None ==> r.price_abort == Amount::spec_zero(),
{
}

impl Order {
    pub fn mock_created(req: &OrderRequest, len: usize, now: i64) -> (res: Self)
        requires
            len < 2147483647,
        ensures
            spec_mock_created(res, *req, len as nat, now),
    {
        Order {
            id: match req.id { Some(v) => v, None => 0i32 },
            status_id: match req.status_id { Some(v) => v, None => 0i32 },
            creation_date: now,
            update_date: now,
            is_sell: match req.is_sell { Some(v) => v, None => false },
            strategy_id: match req.strategy_id { Some(v) => v, None => 0i32 },
            base_asset_id: match req.base_asset_id { Some(v) => v, None => 0i32 },
            base_asset_amount: match req.base_asset_amount { Some(v) => v, None => Amount::zero() },
            quote_asset_id: match req.quote_asset_id { Some(v) => v, None => 0i32 },
            quote_asset_amount: match req.quote_asset_amount { Some(v) => v, None => Amount::zero() },
            price_entry: match req.price_entry { Some(v) => v, None => Amount::zero() },
            price_target: match req.price_target { Some(v) => v, None => Amount::zero() },
            price_abort: match req.price_abort { Some(v) => v, None => Amount::zero() },
        }
    }
}

impl Record for Order {
    type Request = OrderRequest;

    open spec fn key(&self) -> i32 {
        self.id
    }

    open spec fn request_key(req: &OrderRequest) -> Option<i32> {
        req.id
    }

    open spec fn spec_finds(&self, req: &OrderRequest) -> bool {
        spec_mock_finds(*self, *req)
    }

    open spec fn spec_created(&self, req: &OrderRequest, len: nat, now: i64) -> bool {
        spec_mock_created(*self, *req, len, now)
    }

    open spec fn spec_matches(&self, req: &OrderRequest) -> bool {
        spec_mock_lists(*self, *req)
    }

    open spec fn spec_patched(&self, req: &OrderRequest, now: i64) -> Self {
        spec_mock_update(*self, *req, now)
    }

    open spec fn paging() -> Paging {
        Paging::LimitOnly
    }

    open spec fn spec_missing_id_message() -> Seq<char> {
        "Invalid mock update id"@
    }

    fn record_id(&self) -> (id: i32) {
        self.id
    }

    fn request_id(req: &OrderRequest) -> (id: Option<i32>) {
        req.id
    }

    fn finds(&self, req: &OrderRequest) -> (b: bool) {
        self.mock_finds(req)
    }

    fn created(req: &OrderRequest, len: usize, now: i64) -> (r: Self) {
        Order::mock_created(req, len, now)
    }

    fn matches(&self, req: &OrderRequest) -> (b: bool) {
        self.mock_lists(req)
    }

    fn patched(&self, req: &OrderRequest, now: i64) -> (r: Self) {
        self.mock_update(req, now)
    }

    fn listing_paging() -> (p: Paging) {
        Paging::LimitOnly
    }

    fn missing_id_message() -> (m: String) {
        String::from_str("Invalid mock update id")
    }

    fn duplicate(&self) -> (r: Self) {
        Order::duplicate(self)
    }

    proof fn lemma_patch_keeps_key(&self, req: &OrderRequest, now: i64) {
    }
}

} // verus!
