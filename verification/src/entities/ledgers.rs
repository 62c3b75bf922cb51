use vstd::prelude::*;

use crate::amount::Amount;
use crate::entities::common::{clone_text, empty_text, text_is};
use crate::query::{build_plan, order_by_name, spec_plan, options_shape, ListingDefaults, OrderDirection, QueryOptions, QueryPlan};
use crate::repository::{Paging, Record};
use crate::text::text_eq;

verus! {

/// A stored ledger entry: how an order moved the free and the locked balance of an asset.
pub struct Ledger {
    pub id: i32,
    pub order_id: Option<i32>,
    pub record_type_id: i32,
    pub creation_date: i64,
    pub asset_id: i32,
    pub free_amount: Amount,
    pub free_previous_balance: Amount,
    pub free_new_balance: Amount,
    pub locked_amount: Amount,
    pub locked_previous_balance: Amount,
    pub locked_new_balance: Amount,
}

/// A request on the ledgers table: every field that is set selects or changes.
pub struct LedgerRequest {
    pub id: Option<i32>,
    pub order_id: Option<i32>,
    pub record_type_id: Option<i32>,
    pub asset_id: Option<i32>,
    pub free_amount: Option<Amount>,
    pub free_previous_balance: Option<Amount>,
    pub free_new_balance: Option<Amount>,
    pub locked_amount: Option<Amount>,
    pub locked_previous_balance: Option<Amount>,
    pub locked_new_balance: Option<Amount>,
}

/// The columns of the ledgers table.
#[derive(Debug, Clone, Copy, PartialEq, Eq, Structural)]
pub enum LedgerColumn {
    Id,
    OrderId,
    RecordTypeId,
    CreationDate,
    AssetId,
    FreeAmount,
    FreePreviousBalance,
    FreeNewBalance,
    LockedAmount,
    LockedPreviousBalance,
    LockedNewBalance,
}

/// The column a listing may be ordered by, from its name.
pub open spec fn spec_parse_order_column(value: Seq<char>) -> Option<LedgerColumn> {
    if value == "id"@ {
        Some(LedgerColumn::Id)
    } else if value == "order_id"@ {
        Some(LedgerColumn::OrderId)
    } else if value == "record_type_id"@ {
        Some(LedgerColumn::RecordTypeId)
    } else if value == "creation_date"@ {
        Some(LedgerColumn::CreationDate)
    } else if value == "asset_id"@ {
        Some(LedgerColumn::AssetId)
    } else if value == "free_amount"@ {
        Some(LedgerColumn::FreeAmount)
    } else if value == "free_previous_balance"@ {
        Some(LedgerColumn::FreePreviousBalance)
    } else if value == "free_new_balance"@ {
        Some(LedgerColumn::FreeNewBalance)
    } else if value == "locked_amount"@ {
        Some(LedgerColumn::LockedAmount)
    } else if value == "locked_previous_balance"@ {
        Some(LedgerColumn::LockedPreviousBalance)
    } else if value == "locked_new_balance"@ {
        Some(LedgerColumn::LockedNewBalance)
    } else {
        None
    }
}

/// Each column name reads as its own column.
pub proof fn lemma_column_names_read_back()
    ensures
        spec_parse_order_column("id"@) == Some(LedgerColumn::Id),
        spec_parse_order_column("order_id"@) == Some(LedgerColumn::OrderId),
        spec_parse_order_column("record_type_id"@) == Some(LedgerColumn::RecordTypeId),
        spec_parse_order_column("creation_date"@) == Some(LedgerColumn::CreationDate),
        spec_parse_order_column("asset_id"@) == Some(LedgerColumn::AssetId),
        spec_parse_order_column("free_amount"@) == Some(LedgerColumn::FreeAmount),
        spec_parse_order_column("free_previous_balance"@) == Some(LedgerColumn::FreePreviousBalance),
        spec_parse_order_column("free_new_balance"@) == Some(LedgerColumn::FreeNewBalance),
        spec_parse_order_column("locked_amount"@) == Some(LedgerColumn::LockedAmount),
        spec_parse_order_column("locked_previous_balance"@) == Some(LedgerColumn::LockedPreviousBalance),
        spec_parse_order_column("locked_new_balance"@) == Some(LedgerColumn::LockedNewBalance),
{
    reveal_strlit("id");
    assert("id"@.len() == 2);
    reveal_strlit("order_id");
    assert("order_id"@.len() == 8);
    reveal_strlit("record_type_id");
    assert("record_type_id"@.len() == 14);
    reveal_strlit("creation_date");
    assert("creation_date"@.len() == 13);
    reveal_strlit("asset_id");
    assert("asset_id"@.len() == 8);
    reveal_strlit("free_amount");
    assert("free_amount"@.len() == 11);
    reveal_strlit("free_previous_balance");
    assert("free_previous_balance"@.len() == 21);
    reveal_strlit("free_new_balance");
    assert("free_new_balance"@.len() == 16);
    reveal_strlit("locked_amount");
    assert("locked_amount"@.len() == 13);
    reveal_strlit("locked_previous_balance");
    assert("locked_previous_balance"@.len() == 23);
    reveal_strlit("locked_new_balance");
    assert("locked_new_balance"@.len() == 18);
    assert("asset_id"@[0] != "order_id"@[0]);
    assert("locked_amount"@[0] != "creation_date"@[0]);
}

/// Reads the name of a column a listing may be ordered by; other names are ignored.
pub fn parse_order_column(value: &str) -> (res: Option<LedgerColumn>)
    ensures
        res == spec_parse_order_column(value@),
{
    if text_eq(value, "id") {
        Some(LedgerColumn::Id)
    } else if text_eq(value, "order_id") {
        Some(LedgerColumn::OrderId)
    } else if text_eq(value, "record_type_id") {
        Some(LedgerColumn::RecordTypeId)
    } else if text_eq(value, "creation_date") {
        Some(LedgerColumn::CreationDate)
    } else if text_eq(value, "asset_id") {
        Some(LedgerColumn::AssetId)
    } else if text_eq(value, "free_amount") {
        Some(LedgerColumn::FreeAmount)
    } else if text_eq(value, "free_previous_balance") {
        Some(LedgerColumn::FreePreviousBalance)
    } else if text_eq(value, "free_new_balance") {
        Some(LedgerColumn::FreeNewBalance)
    } else if text_eq(value, "locked_amount") {
        Some(LedgerColumn::LockedAmount)
    } else if text_eq(value, "locked_previous_balance") {
        Some(LedgerColumn::LockedPreviousBalance)
    } else if text_eq(value, "locked_new_balance") {
        Some(LedgerColumn::LockedNewBalance)
    } else {
        None
    }
}

/// How the ledgers listing reads its table before the request's options apply.
pub open spec fn spec_listing_defaults() -> ListingDefaults<LedgerColumn> {
    ListingDefaults { limit: None, primary: Some((LedgerColumn::Id, OrderDirection::Desc)), direction: OrderDirection::Desc }
}

pub fn listing_defaults() -> (res: ListingDefaults<LedgerColumn>)
    ensures
        res == spec_listing_defaults(),
{
    ListingDefaults { limit: None, primary: Some((LedgerColumn::Id, OrderDirection::Desc)), direction: OrderDirection::Desc }
}

/// The plan of a listing of the ledgers table with these options.
pub fn plan_query(query: &Option<QueryOptions>) -> (res: QueryPlan<LedgerColumn>)
    ensures
        (res.limit, res.offset, res.ordering@) == spec_plan(
            spec_listing_defaults(),
            options_shape(*query),
            match query {
                Some(q) => match q.order_by {
                    Some(name) => spec_parse_order_column(name@),
                    None => None,
                },
                None => None,
            },
        ),
{
    let column = match order_by_name(query) {
        Some(name) => parse_order_column(name),
        None => None,
    };
    build_plan(&listing_defaults(), query, column)
}

/// Whether `r` is the record an insert request creates under id `id` at time `now`: unset fields take their defaults, the order is taken as it is; the creation time is `now`.
pub open spec fn spec_is_new_record(r: Ledger, req: LedgerRequest, id: i32, now: i64) -> bool {
    &&& r.id == (id)
    &&& r.order_id == (req.order_id)
    &&& r.record_type_id == (match req.record_type_id { Some(v) => v, None => 0i32 })
    &&& r.creation_date == (now)
    &&& r.asset_id == (match req.asset_id { Some(v) => v, None => 0i32 })
    &&& r.free_amount == (match req.free_amount { Some(v) => v, None => Amount::spec_zero() })
    &&& r.free_previous_balance == (match req.free_previous_balance { Some(v) => v, None => Amount::spec_zero() })
    &&& r.free_new_balance == (match req.free_new_balance { Some(v) => v, None => Amount::spec_zero() })
    &&& r.locked_amount == (match req.locked_amount { Some(v) => v, None => Amount::spec_zero() })
    &&& r.locked_previous_balance == (match req.locked_previous_balance { Some(v) => v, None => Amount::spec_zero() })
    &&& r.locked_new_balance == (match req.locked_new_balance { Some(v) => v, None => Amount::spec_zero() })
}

pub fn new_record(req: &LedgerRequest, id: i32, now: i64) -> (res: Ledger)
    ensures
        spec_is_new_record(res, *req, id, now),
{
    Ledger {
        id: id,
        order_id: req.order_id,
        record_type_id: match req.record_type_id { Some(v) => v, None => 0i32 },
        creation_date: now,
        asset_id: match req.asset_id { Some(v) => v, None => 0i32 },
        free_amount: match req.free_amount { Some(v) => v, None => Amount::zero() },
        free_previous_balance: match req.free_previous_balance { Some(v) => v, None => Amount::zero() },
        free_new_balance: match req.free_new_balance { Some(v) => v, None => Amount::zero() },
        locked_amount: match req.locked_amount { Some(v) => v, None => Amount::zero() },
        locked_previous_balance: match req.locked_previous_balance { Some(v) => v, None => Amount::zero() },
        locked_new_balance: match req.locked_new_balance { Some(v) => v, None => Amount::zero() },
    }
}

/// A new record has the id it is given, each field an insert request sets
/// at the request's value and each other field at its default (the dates the
/// table fills at the time of the insert).
pub proof fn lemma_new_record_fields(r: Ledger, req: LedgerRequest, id: i32, now: i64)
    requires
        spec_is_new_record(r, req, id, now),
    ensures
        r.id == id,
        r.order_id == req.order_id,
        req.record_type_id matches Some(v) ==> r.record_type_id == v,
        req.record_type_id is None ==> r.record_type_id == 0i32,
        r.creation_date == now,
        req.asset_id matches Some(v) ==> r.asset_id == v,
        req.asset_id is None ==> r.asset_id == 0i32,
        req.free_amount matches Some(v) ==> r.free_amount == v,
        req.free_amount is None ==> r.free_amount == Amount::spec_zero(),
        req.free_previous_balance matches Some(v) ==> r.free_previous_balance == v,
        req.free_previous_balance is None ==> r.free_previous_balance == Amount::spec_zero(),
        req.free_new_balance matches Some(v) ==> r.free_new_balance == v,
        req.free_new_balance is None ==> r.free_new_balance == Amount::spec_zero(),
        req.locked_amount matches Some(v) ==> r.locked_amount == v,
        req.locked_amount is None ==> r.locked_amount == Amount::spec_zero(),
        req.locked_previous_balance matches Some(v) ==> r.locked_previous_balance == v,
        req.locked_previous_balance is None ==> r.locked_previous_balance == Amount::spec_zero(),
        req.locked_new_balance matches Some(v) ==> r.locked_new_balance == v,
        req.locked_new_balance is None ==> r.locked_new_balance == Amount::spec_zero(),
{
}

/// Whether a single-record request selects `m` (the conditions of a lookup).
pub open spec fn spec_selects(m: Ledger, req: LedgerRequest) -> bool {
    &&& (match req.id { Some(v) => m.id == v, None => true })
    &&& (match req.order_id { Some(v) => m.order_id == Some(v), None => true })
    &&& (match req.record_type_id { Some(v) => m.record_type_id == v, None => true })
    &&& (match req.asset_id { Some(v) => m.asset_id == v, None => true })
}

/// Whether a listing request selects `m` (the conditions of a listing).
pub open spec fn spec_lists(m: Ledger, req: LedgerRequest) -> bool {
    &&& (match req.order_id { Some(v) => m.order_id == Some(v), None => true })
    &&& (match req.record_type_id { Some(v) => m.record_type_id == v, None => true })
    &&& (match req.asset_id { Some(v) => m.asset_id == v, None => true })
}

/// A single-record request keeps only records that agree with it: a record it keeps has, in
/// each field it sets among `id`, `order_id`, `record_type_id`, `asset_id`, the value the request sets
/// (where an empty or non-positive value sets no condition). The blank
/// request keeps every record, and a kept record is still kept when a field
/// of the request is set to that record's own value.
pub proof fn lemma_selects_filters(m: Ledger, req: LedgerRequest)
    ensures
        spec_selects(m, (LedgerRequest { id: None, order_id: None, record_type_id: None, asset_id: None, free_amount: None, free_previous_balance: None, free_new_balance: None, locked_amount: None, locked_previous_balance: None, locked_new_balance: None })),
        req.id matches Some(v) ==> (spec_selects(m, req) ==> m.id == v),
        req.order_id matches Some(v) ==> (spec_selects(m, req) ==> m.order_id == Some(v)),
        req.record_type_id matches Some(v) ==> (spec_selects(m, req) ==> m.record_type_id == v),
        req.asset_id matches Some(v) ==> (spec_selects(m, req) ==> m.asset_id == v),
        spec_selects(m, req) ==> spec_selects(m, (LedgerRequest { id: Some(m.id), ..req })),
        spec_selects(m, req) ==> spec_selects(m, (LedgerRequest { order_id: m.order_id, ..req })),
        spec_selects(m, req) ==> spec_selects(m, (LedgerRequest { record_type_id: Some(m.record_type_id), ..req })),
        spec_selects(m, req) ==> spec_selects(m, (LedgerRequest { asset_id: Some(m.asset_id), ..req })),
{
}

/// A listing request keeps only records that agree with it: a record it keeps has, in
/// each field it sets among `order_id`, `record_type_id`, `asset_id`, the value the request sets
/// (where an empty or non-positive value sets no condition). The blank
/// request keeps every record, and a kept record is still kept when a field
/// of the request is set to that record's own value.
pub proof fn lemma_lists_filters(m: Ledger, req: LedgerRequest)
    ensures
        spec_lists(m, (LedgerRequest { id: None, order_id: None, record_type_id: None, asset_id: None, free_amount: None, free_previous_balance: None, free_new_balance: None, locked_amount: None, locked_previous_balance: None, locked_new_balance: None })),
        req.order_id matches Some(v) ==> (spec_lists(m, req) ==> m.order_id == Some(v)),
        req.record_type_id matches Some(v) ==> (spec_lists(m, req) ==> m.record_type_id == v),
        req.asset_id matches Some(v) ==> (spec_lists(m, req) ==> m.asset_id == v),
        spec_lists(m, req) ==> spec_lists(m, (LedgerRequest { order_id: m.order_id, ..req })),
        spec_lists(m, req) ==> spec_lists(m, (LedgerRequest { record_type_id: Some(m.record_type_id), ..req })),
        spec_lists(m, req) ==> spec_lists(m, (LedgerRequest { asset_id: Some(m.asset_id), ..req })),
{
}

/// `m` after an update request at time `now`: the six amounts are replaced when the request sets them.
pub open spec fn spec_apply_update(m: Ledger, req: LedgerRequest, now: i64) -> Ledger {
    Ledger {
        id: m.id,
        order_id: m.order_id,
        record_type_id: m.record_type_id,
        creation_date: m.creation_date,
        asset_id: m.asset_id,
        free_amount: match req.free_amount { Some(v) => v, None => m.free_amount },
        free_previous_balance: match req.free_previous_balance { Some(v) => v, None => m.free_previous_balance },
        free_new_balance: match req.free_new_balance { Some(v) => v, None => m.free_new_balance },
        locked_amount: match req.locked_amount { Some(v) => v, None => m.locked_amount },
        locked_previous_balance: match req.locked_previous_balance { Some(v) => v, None => m.locked_previous_balance },
        locked_new_balance: match req.locked_new_balance { Some(v) => v, None => m.locked_new_balance },
    }
}

/// An update request: each field the request sets among those it may change takes the
/// request's value, an unset one keeps the record's, the other fields stay as
/// they are (the update time becomes `now`), and doing it twice is doing it once.
pub proof fn lemma_apply_update_fields(m: Ledger, req: LedgerRequest, now: i64)
    ensures
        spec_apply_update(m, req, now).id == m.id,
        spec_apply_update(m, req, now).order_id == m.order_id,
        spec_apply_update(m, req, now).record_type_id == m.record_type_id,
        spec_apply_update(m, req, now).creation_date == m.creation_date,
        spec_apply_update(m, req, now).asset_id == m.asset_id,
        req.free_amount matches Some(v) ==> spec_apply_update(m, req, now).free_amount == v,
        req.free_amount is None ==> spec_apply_update(m, req, now).free_amount == m.free_amount,
        req.free_previous_balance matches Some(v) ==> spec_apply_update(m, req, now).free_previous_balance == v,
        req.free_previous_balance is None ==> spec_apply_update(m, req, now).free_previous_balance == m.free_previous_balance,
        req.free_new_balance matches Some(v) ==> spec_apply_update(m, req, now).free_new_balance == v,
        req.free_new_balance is None ==> spec_apply_update(m, req, now).free_new_balance == m.free_new_balance,
        req.locked_amount matches Some(v) ==> spec_apply_update(m, req, now).locked_amount == v,
        req.locked_amount is None ==> spec_apply_update(m, req, now).locked_amount == m.locked_amount,
        req.locked_previous_balance matches Some(v) ==> spec_apply_update(m, req, now).locked_previous_balance == v,
        req.locked_previous_balance is None ==> spec_apply_update(m, req, now).locked_previous_balance == m.locked_previous_balance,
        req.locked_new_balance matches Some(v) ==> spec_apply_update(m, req, now).locked_new_balance == v,
        req.locked_new_balance is None ==> spec_apply_update(m, req, now).locked_new_balance == m.locked_new_balance,
        spec_apply_update(spec_apply_update(m, req, now), req, now) == spec_apply_update(m, req, now),
{
}

/// Whether `r` is the record with every field at its default.
pub open spec fn spec_is_default(r: Ledger) -> bool {
    &&& r.id == 0i32
    &&& r.order_id is None
    &&& r.record_type_id == 0i32
    &&& r.creation_date == 0i64
    &&& r.asset_id == 0i32
    &&& r.free_amount == Amount::spec_zero()
    &&& r.free_previous_balance == Amount::spec_zero()
    &&& r.free_new_balance == Amount::spec_zero()
    &&& r.locked_amount == Amount::spec_zero()
    &&& r.locked_previous_balance == Amount::spec_zero()
    &&& r.locked_new_balance == Amount::spec_zero()
}

impl Ledger {
    /// The record with every field at its default.
    pub fn default_record() -> (res: Self)
        ensures
            spec_is_default(res),
    {
        Ledger {
            id: 0i32,
            order_id: None,
            record_type_id: 0i32,
            creation_date: 0i64,
            asset_id: 0i32,
            free_amount: Amount::zero(),
            free_previous_balance: Amount::zero(),
            free_new_balance: Amount::zero(),
            locked_amount: Amount::zero(),
            locked_previous_balance: Amount::zero(),
            locked_new_balance: Amount::zero(),
        }
    }

    pub fn duplicate(&self) -> (res: Self)
        ensures
            res == *self,
    {
        Ledger {
            id: self.id,
            order_id: self.order_id,
            record_type_id: self.record_type_id,
            creation_date: self.creation_date,
            asset_id: self.asset_id,
            free_amount: self.free_amount,
            free_previous_balance: self.free_previous_balance,
            free_new_balance: self.free_new_balance,
            locked_amount: self.locked_amount,
            locked_previous_balance: self.locked_previous_balance,
            locked_new_balance: self.locked_new_balance,
        }
    }

    /// This record after an update request at time `now`.
    pub fn apply_update(&self, req: &LedgerRequest, now: i64) -> (res: Self)
        ensures
            res == spec_apply_update(*self, *req, now),
    {
        Ledger {
            id: self.id,
            order_id: self.order_id,
            record_type_id: self.record_type_id,
            creation_date: self.creation_date,
            asset_id: self.asset_id,
            free_amount: match req.free_amount { Some(v) => v, None => self.free_amount },
            free_previous_balance: match req.free_previous_balance { Some(v) => v, None => self.free_previous_balance },
            free_new_balance: match req.free_new_balance { Some(v) => v, None => self.free_new_balance },
            locked_amount: match req.locked_amount { Some(v) => v, None => self.locked_amount },
            locked_previous_balance: match req.locked_previous_balance { Some(v) => v, None => self.locked_previous_balance },
            locked_new_balance: match req.locked_new_balance { Some(v) => v, None => self.locked_new_balance },
        }
    }

    pub fn selects(&self, req: &LedgerRequest) -> (res: bool)
        ensures
            res == spec_selects(*self, *req),
    {
        (match req.id { Some(v) => self.id == v, None => true })
        && (match req.order_id { Some(v) => self.order_id == Some(v), None => true })
        && (match req.record_type_id { Some(v) => self.record_type_id == v, None => true })
        && (match req.asset_id { Some(v) => self.asset_id == v, None => true })
    }

    pub fn lists(&self, req: &LedgerRequest) -> (res: bool)
        ensures
            res == spec_lists(*self, *req),
    {
        (match req.order_id { Some(v) => self.order_id == Some(v), None => true })
        && (match req.record_type_id { Some(v) => self.record_type_id == v, None => true })
        && (match req.asset_id { Some(v) => self.asset_id == v, None => true })
    }

}

impl LedgerRequest {
    /// The request with no field set.
    pub fn blank() -> (res: Self)
        ensures
            res.id is None,
            res.order_id is None,
            res.record_type_id is None,
            res.asset_id is None,
            res.free_amount is None,
            res.free_previous_balance is None,
            res.free_new_balance is None,
            res.locked_amount is None,
            res.locked_previous_balance is None,
            res.locked_new_balance is None,
    {
        LedgerRequest { id: None, order_id: None, record_type_id: None, asset_id: None, free_amount: None, free_previous_balance: None, free_new_balance: None, locked_amount: None, locked_previous_balance: None, locked_new_balance: None }
    }

    pub fn duplicate(&self) -> (res: Self)
        ensures
            res == *self,
    {
        LedgerRequest {
            id: self.id,
            order_id: self.order_id,
            record_type_id: self.record_type_id,
            asset_id: self.asset_id,
            free_amount: self.free_amount,
            free_previous_balance: self.free_previous_balance,
            free_new_balance: self.free_new_balance,
            locked_amount: self.locked_amount,
            locked_previous_balance: self.locked_previous_balance,
            locked_new_balance: self.locked_new_balance,
        }
    }
}

/// Whether a lookup of the in-memory ledgers table finds `m`: the record whose id is the request's (0 when it sets none).
pub open spec fn spec_mock_finds(m: Ledger, req: LedgerRequest) -> bool {
    &&& (m.id == (match req.id { Some(v) => v, None => 0i32 }))
}

/// Whether a listing of the in-memory ledgers table keeps `m`: a record equal to the request in every field it sets among `order_id`.
pub open spec fn spec_mock_lists(m: Ledger, req: LedgerRequest) -> bool {
    &&& (match req.order_id { Some(v) => m.order_id == Some(v), None => true })
}

/// A lookup of the in-memory table finds exactly the record whose id is the
/// request's, and the record with id 0 when the request sets no id.
pub proof fn lemma_mock_finds_by_id(m: Ledger, req: LedgerRequest)
    ensures
        req.id matches Some(v) ==> (spec_mock_finds(m, req) <==> m.id == v),
        req.id is None ==> (spec_mock_finds(m, req) <==> m.id == 0),
{
}

/// A listing of the in-memory table keeps only records that agree with it: a record it keeps has, in
/// each field it sets among `order_id`, the value the request sets
/// (where an empty or non-positive value sets no condition). The blank
/// request keeps every record, and a kept record is still kept when a field
/// of the request is set to that record's own value.
pub proof fn lemma_mock_lists_filters(m: Ledger, req: LedgerRequest)
    ensures
        spec_mock_lists(m, (LedgerRequest { id: None, order_id: None, record_type_id: None, asset_id: None, free_amount: None, free_previous_balance: None, free_new_balance: None, locked_amount: None, locked_previous_balance: None, locked_new_balance: None })),
        req.order_id matches Some(v) ==> (spec_mock_lists(m, req) ==> m.order_id == Some(v)),
        spec_mock_lists(m, req) ==> spec_mock_lists(m, (LedgerRequest { order_id: m.order_id, ..req })),
{
}

/// `m` after an update of the in-memory ledgers table at time `now`: the request replaces `free_amount`, `free_previous_balance`, `free_new_balance`, `locked_amount`, `locked_previous_balance`, `locked_new_balance` where it sets them.
pub open spec fn spec_mock_update(m: Ledger, req: LedgerRequest, now: i64) -> Ledger {
    Ledger {
        id: m.id,
        order_id: m.order_id,
        record_type_id: m.record_type_id,
        creation_date: m.creation_date,
        asset_id: m.asset_id,
        free_amount: match req.free_amount { Some(v) => v, None => m.free_amount },
        free_previous_balance: match req.free_previous_balance { Some(v) => v, None => m.free_previous_balance },
        free_new_balance: match req.free_new_balance { Some(v) => v, None => m.free_new_balance },
        locked_amount: match req.locked_amount { Some(v) => v, None => m.locked_amount },
        locked_previous_balance: match req.locked_previous_balance { Some(v) => v, None => m.locked_previous_balance },
        locked_new_balance: match req.locked_new_balance { Some(v) => v, None => m.locked_new_balance },
    }
}

/// An update of the in-memory table: each field the request sets among those it may change takes the
/// request's value, an unset one keeps the record's, the other fields stay as
/// they are (the update time becomes `now`), and doing it twice is doing it once.
pub proof fn lemma_mock_update_fields(m: Ledger, req: LedgerRequest, now: i64)
    ensures
        spec_mock_update(m, req, now).id == m.id,
        spec_mock_update(m, req, now).order_id == m.order_id,
        spec_mock_update(m, req, now).record_type_id == m.record_type_id,
        spec_mock_update(m, req, now).creation_date == m.creation_date,
        spec_mock_update(m, req, now).asset_id == m.asset_id,
        req.free_amount matches Some(v) ==> spec_mock_update(m, req, now).free_amount == v,
        req.free_amount is None ==> spec_mock_update(m, req, now).free_amount == m.free_amount,
        req.free_previous_balance matches Some(v) ==> spec_mock_update(m, req, now).free_previous_balance == v,
        req.free_previous_balance is None ==> spec_mock_update(m, req, now).free_previous_balance == m.free_previous_balance,
        req.free_new_balance matches Some(v) ==> spec_mock_update(m, req, now).free_new_balance == v,
        req.free_new_balance is None ==> spec_mock_update(m, req, now).free_new_balance == m.free_new_balance,
        req.locked_amount matches Some(v) ==> spec_mock_update(m, req, now).locked_amount == v,
        req.locked_amount is None ==> spec_mock_update(m, req, now).locked_amount == m.locked_amount,
        req.locked_previous_balance matches Some(v) ==> spec_mock_update(m, req, now).locked_previous_balance == v,
        req.locked_previous_balance is None ==> spec_mock_update(m, req, now).locked_previous_balance == m.locked_previous_balance,
        req.locked_new_balance matches Some(v) ==> spec_mock_update(m, req, now).locked_new_balance == v,
        req.locked_new_balance is None ==> spec_mock_update(m, req, now).locked_new_balance == m.locked_new_balance,
        spec_mock_update(spec_mock_update(m, req, now), req, now) == spec_mock_update(m, req, now),
{
}

impl Ledger {
    pub fn mock_finds(&self, req: &LedgerRequest) -> (res: bool)
        ensures
            res == spec_mock_finds(*self, *req),
    {
        (self.id == (match req.id { Some(v) => v, None => 0i32 }))
    }

    pub fn mock_lists(&self, req: &LedgerRequest) -> (res: bool)
        ensures
            res == spec_mock_lists(*self, *req),
    {
        (match req.order_id { Some(v) => self.order_id == Some(v), None => true })
    }

    pub fn mock_update(&self, req: &LedgerRequest, now: i64) -> (res: Self)
        ensures
            res == spec_mock_update(*self, *req, now),
    {
        Ledger {
            id: self.id,
            order_id: self.order_id,
            record_type_id: self.record_type_id,
            creation_date: self.creation_date,
            asset_id: self.asset_id,
            free_amount: match req.free_amount { Some(v) => v, None => self.free_amount },
            free_previous_balance: match req.free_previous_balance { Some(v) => v, None => self.free_previous_balance },
            free_new_balance: match req.free_new_balance { Some(v) => v, None => self.free_new_balance },
            locked_amount: match req.locked_amount { Some(v) => v, None => self.locked_amount },
            locked_previous_balance: match req.locked_previous_balance { Some(v) => v, None => self.locked_previous_balance },
            locked_new_balance: match req.locked_new_balance { Some(v) => v, None => self.locked_new_balance },
        }
    }
}

/// Whether `r` is the record the in-memory ledgers table creates for an insert
/// request when it holds `len` records, at time `now`: its id is the request's id, else 0;
/// the other fields as the rules of this table say.
pub open spec fn spec_mock_created(r: Ledger, req: LedgerRequest, len: nat, now: i64) -> bool {
    &&& r.id == (match req.id { Some(v) => v, None => 0i32 })
    &&& r.order_id == req.order_id
    &&& r.record_type_id == (match req.record_type_id { Some(v) => v, None => 0i32 })
    &&& r.creation_date == now
    &&& r.asset_id == (match req.asset_id { Some(v) => v, None => 0i32 })
    &&& r.free_amount == (match req.free_amount { Some(v) => v, None => Amount::spec_zero() })
    &&& r.free_previous_balance == (match req.free_previous_balance { Some(v) => v, None => Amount::spec_zero() })
    &&& r.free_new_balance == (match req.free_new_balance { Some(v) => v, None => Amount::spec_zero() })
    &&& r.locked_amount == (match req.locked_amount { Some(v) => v, None => Amount::spec_zero() })
    &&& r.locked_previous_balance == (match req.locked_previous_balance { Some(v) => v, None => Amount::spec_zero() })
    &&& r.locked_new_balance == (match req.locked_new_balance { Some(v) => v, None => Amount::spec_zero() })
}

/// A record the in-memory table creates has the id its rule gives (the request's id, else 0)
/// and each other field as the table's rules say: the request's value where it
/// sets one, else the default.
pub proof fn lemma_mock_created_fields(r: Ledger, req: LedgerRequest, len: nat, now: i64)
    requires
        len < 2147483647,
        spec_mock_created(r, req, len, now),
    ensures
        req.id matches Some(v) ==> r.id == v,
        req.id is None ==> r.id == 0,
        r.order_id == req.order_id,
        req.record_type_id matches Some(v) ==> r.record_type_id == v,
        req.record_type_id is None ==> r.record_type_id == 0i32,
        r.creation_date == now,
        req.asset_id matches Some(v) ==> r.asset_id == v,
        req.asset_id is None ==> r.asset_id == 0i32,
        req.free_amount matches Some(v) ==> r.free_amount == v,
        req.free_amount is None ==> r.free_amount == Amount::spec_zero(),
        req.free_previous_balance matches Some(v) ==> r.free_previous_balance == v,
        req.free_previous_balance is None ==> r.free_previous_balance == Amount::spec_zero(),
        req.free_new_balance matches Some(v) ==> r.free_new_balance == v,
        req.free_new_balance is None ==> r.free_new_balance == Amount::spec_zero(),
        req.locked_amount matches Some(v) ==> r.locked_amount == v,
        req.locked_amount is None ==> r.locked_amount == Amount::spec_zero(),
        req.locked_previous_balance matches Some(v) ==> r.locked_previous_balance == v,
        req.locked_previous_balance is None ==> r.locked_previous_balance == Amount::spec_zero(),
        req.locked_new_balance matches Some(v) ==> r.locked_new_balance == v,
        req.locked_new_balance is None ==> r.locked_new_balance == Amount::spec_zero(),
{
}

impl Ledger {
    pub fn mock_created(req: &LedgerRequest, len: usize, now: i64) -> (res: Self)
        requires
            len < 2147483647,
        ensures
            spec_mock_created(res, *req, len as nat, now),
    {
        Ledger {
            id: match req.id { Some(v) => v, None => 0i32 },
            order_id: req.order_id,
            record_type_id: match req.record_type_id { Some(v) => v, None => 0i32 },
            creation_date: now,
            asset_id: match req.asset_id { Some(v) => v, None => 0i32 },
            free_amount: match req.free_amount { Some(v) => v, None => Amount::zero() },
            free_previous_balance: match req.free_previous_balance { Some(v) => v, None => Amount::zero() },
            free_new_balance: match req.free_new_balance { Some(v) => v, None => Amount::zero() },
            locked_amount: match req.locked_amount { Some(v) => v, None => Amount::zero() },
            locked_previous_balance: match req.locked_previous_balance { Some(v) => v, None => Amount::zero() },
            locked_new_balance: match req.locked_new_balance { Some(v) => v, None => Amount::zero() },
        }
    }
}

impl Record for Ledger {
    type Request = LedgerRequest;

    open spec fn key(&self) -> i32 {
        self.id
    }

    open spec fn request_key(req: &LedgerRequest) -> Option<i32> {
        req.id
    }

    open spec fn spec_finds(&self, req: &LedgerRequest) -> bool {
        spec_mock_finds(*self, *req)
    }

    open spec fn spec_created(&self, req: &LedgerRequest, len: nat, now: i64) -> bool {
        spec_mock_created(*self, *req, len, now)
    }

    open spec fn spec_matches(&self, req: &LedgerRequest) -> bool {
        spec_mock_lists(*self, *req)
    }

    open spec fn spec_patched(&self, req: &LedgerRequest, now: i64) -> Self {
        spec_mock_update(*self, *req, now)
    }

    open spec fn paging() -> Paging {
        Paging::Unpaged
    }

    open spec fn spec_missing_id_message() -> Seq<char> {
        "Invalid mock update id"@
    }

    fn record_id(&self) -> (id: i32) {
        self.id
    }

    fn request_id(req: &LedgerRequest) -> (id: Option<i32>) {
        req.id
    }

    fn finds(&self, req: &LedgerRequest) -> (b: bool) {
        self.mock_finds(req)
    }

    fn created(req: &LedgerRequest, len: usize, now: i64) -> (r: Self) {
        Ledger::mock_created(req, len, now)
    }

    fn matches(&self, req: &LedgerRequest) -> (b: bool) {
        self.mock_lists(req)
    }

    fn patched(&self, req: &LedgerRequest, now: i64) -> (r: Self) {
        self.mock_update(req, now)
    }

    fn listing_paging() -> (p: Paging) {
        Paging::Unpaged
    }

    fn missing_id_message() -> (m: String) {
        String::from_str("Invalid mock update id")
    }

    fn duplicate(&self) -> (r: Self) {
        Ledger::duplicate(self)
    }

    proof fn lemma_patch_keeps_key(&self, req: &LedgerRequest, now: i64) {
    }
}

} // verus!
