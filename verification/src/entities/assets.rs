use vstd::prelude::*;

use crate::amount::Amount;
use crate::entities::common::{clone_text, empty_text, text_is};
use crate::query::{build_plan, order_by_name, spec_plan, options_shape, ListingDefaults, OrderDirection, QueryOptions, QueryPlan};
use crate::repository::{Paging, Record};
use crate::text::text_eq;

verus! {

/// A stored asset and its balances (free to trade, and locked in open orders).
pub struct Asset {
    pub id: i32,
    pub name: String,
    pub ticker: String,
    pub free: Amount,
    pub locked: Amount,
    pub last_update: i64,
}

/// A request on the assets table: every field that is set selects or changes.
pub struct AssetRequest {
    pub id: Option<i32>,
    pub name: Option<String>,
    pub ticker: Option<String>,
    pub free: Option<Amount>,
    pub locked: Option<Amount>,
}

/// The columns of the assets table.
#[derive(Debug, Clone, Copy, PartialEq, Eq, Structural)]
pub enum AssetColumn {
    Id,
    Name,
    Ticker,
    Free,
    Locked,
    LastUpdate,
}

/// The column a listing may be ordered by, from its name.
pub open spec fn spec_parse_order_column(value: Seq<char>) -> Option<AssetColumn> {
    if value == "id"@ {
        Some(AssetColumn::Id)
    } else if value == "name"@ {
        Some(AssetColumn::Name)
    } else if value == "ticker"@ {
        Some(AssetColumn::Ticker)
    } else if value == "free"@ {
        Some(AssetColumn::Free)
    } else if value == "locked"@ {
        Some(AssetColumn::Locked)
    } else if value == "last_update"@ {
        Some(AssetColumn::LastUpdate)
    } else {
        None
    }
}

/// Each column name reads as its own column.
pub proof fn lemma_column_names_read_back()
    ensures
        spec_parse_order_column("id"@) == Some(AssetColumn::Id),
        spec_parse_order_column("name"@) == Some(AssetColumn::Name),
        spec_parse_order_column("ticker"@) == Some(AssetColumn::Ticker),
        spec_parse_order_column("free"@) == Some(AssetColumn::Free),
        spec_parse_order_column("locked"@) == Some(AssetColumn::Locked),
        spec_parse_order_column("last_update"@) == Some(AssetColumn::LastUpdate),
{
    reveal_strlit("id");
    assert("id"@.len() == 2);
    reveal_strlit("name");
    assert("name"@.len() == 4);
    reveal_strlit("ticker");
    assert("ticker"@.len() == 6);
    reveal_strlit("free");
    assert("free"@.len() == 4);
    reveal_strlit("locked");
    assert("locked"@.len() == 6);
    reveal_strlit("last_update");
    assert("last_update"@.len() == 11);
    assert("free"@[0] != "name"@[0]);
    assert("locked"@[0] != "ticker"@[0]);
}

/// Reads the name of a column a listing may be ordered by; other names are ignored.
pub fn parse_order_column(value: &str) -> (res: Option<AssetColumn>)
    ensures
        res == spec_parse_order_column(value@),
{
    if text_eq(value, "id") {
        Some(AssetColumn::Id)
    } else if text_eq(value, "name") {
        Some(AssetColumn::Name)
    } else if text_eq(value, "ticker") {
        Some(AssetColumn::Ticker)
    } else if text_eq(value, "free") {
        Some(AssetColumn::Free)
    } else if text_eq(value, "locked") {
        Some(AssetColumn::Locked)
    } else if text_eq(value, "last_update") {
        Some(AssetColumn::LastUpdate)
    } else {
        None
    }
}

/// How the assets listing reads its table before the request's options apply.
pub open spec fn spec_listing_defaults() -> ListingDefaults<AssetColumn> {
    ListingDefaults { limit: None, primary: None, direction: OrderDirection::Asc }
}

pub fn listing_defaults() -> (res: ListingDefaults<AssetColumn>)
    ensures
        res == spec_listing_defaults(),
{
    ListingDefaults { limit: None, primary: None, direction: OrderDirection::Asc }
}

/// The plan of a listing of the assets table with these options.
pub fn plan_query(query: &Option<QueryOptions>) -> (res: QueryPlan<AssetColumn>)
    ensures
        (res.limit, res.offset, res.ordering@) == spec_plan(
            spec_listing_defaults(),
            options_shape(*query),
            match query {
                Some(q) => match q.order_by {
                    Some(name) => spec_parse_order_column(name@),
                    None => None,
                },
                None => None,
            },
        ),
{
    let column = match order_by_name(query) {
        Some(name) => parse_order_column(name),
        None => None,
    };
    build_plan(&listing_defaults(), query, column)
}

/// Whether `r` is the record an insert request creates under id `id` at time `now`: unset fields take their defaults; the update time is `now`.
pub open spec fn spec_is_new_record(r: Asset, req: AssetRequest, id: i32, now: i64) -> bool {
    &&& r.id == (id)
    &&& r.name@ == (match req.name { Some(v) => v@, None => Seq::<char>::empty() })
    &&& r.ticker@ == (match req.ticker { Some(v) => v@, None => Seq::<char>::empty() })
    &&& r.free == (match req.free { Some(v) => v, None => Amount::spec_zero() })
    &&& r.locked == (match req.locked { Some(v) => v, None => Amount::spec_zero() })
    &&& r.last_update == (now)
}

pub fn new_record(req: &AssetRequest, id: i32, now: i64) -> (res: Asset)
    ensures
        spec_is_new_record(res, *req, id, now),
{
    Asset {
        id: id,
        name: match &req.name { Some(v) => v.clone(), None => empty_text() },
        ticker: match &req.ticker { Some(v) => v.clone(), None => empty_text() },
        free: match req.free { Some(v) => v, None => Amount::zero() },
        locked: match req.locked { Some(v) => v, None => Amount::zero() },
        last_update: now,
    }
}

/// A new record has the id it is given, each field an insert request sets
/// at the request's value and each other field at its default (the dates the
/// table fills at the time of the insert).
pub proof fn lemma_new_record_fields(r: Asset, req: AssetRequest, id: i32, now: i64)
    requires
        spec_is_new_record(r, req, id, now),
    ensures
        r.id == id,
        req.name matches Some(v) ==> r.name@ == v@,
        req.name is None ==> r.name@ == Seq::<char>::empty(),
        req.ticker matches Some(v) ==> r.ticker@ == v@,
        req.ticker is None ==> r.ticker@ == Seq::<char>::empty(),
        req.free matches Some(v) ==> r.free == v,
        req.free is None ==> r.free == Amount::spec_zero(),
        req.locked matches Some(v) ==> r.locked == v,
        req.locked is None ==> r.locked == Amount::spec_zero(),
        r.last_update == now,
{
}

/// Whether a single-record request selects `m` (the conditions of a lookup).
pub open spec fn spec_selects(m: Asset, req: AssetRequest) -> bool {
    &&& (match req.id { Some(v) => m.id == v, None => true })
    &&& (match req.name { Some(v) => m.name@ == v@, None => true })
    &&& (match req.ticker { Some(v) => m.ticker@ == v@, None => true })
}

/// Whether a listing request selects `m` (the conditions of a listing).
pub open spec fn spec_lists(m: Asset, req: AssetRequest) -> bool {
    &&& (match req.id { Some(v) => m.id == v, None => true })
    &&& (match req.name { Some(v) => m.name@ == v@, None => true })
    &&& (match req.ticker { Some(v) => m.ticker@ == v@, None => true })
}

/// A single-record request keeps only records that agree with it: a record it keeps has, in
/// each field it sets among `id`, `name`, `ticker`, the value the request sets
/// (where an empty or non-positive value sets no condition). The blank
/// request keeps every record, and a kept record is still kept when a field
/// of the request is set to that record's own value.
pub proof fn lemma_selects_filters(m: Asset, req: AssetRequest)
    ensures
        spec_selects(m, (AssetRequest { id: None, name: None, ticker: None, free: None, locked: None })),
        req.id matches Some(v) ==> (spec_selects(m, req) ==> m.id == v),
        req.name matches Some(v) ==> (spec_selects(m, req) ==> m.name@ == v@),
        req.ticker matches Some(v) ==> (spec_selects(m, req) ==> m.ticker@ == v@),
        spec_selects(m, req) ==> spec_selects(m, (AssetRequest { id: Some(m.id), ..req })),
        spec_selects(m, req) ==> spec_selects(m, (AssetRequest { name: Some(m.name), ..req })),
        spec_selects(m, req) ==> spec_selects(m, (AssetRequest { ticker: Some(m.ticker), ..req })),
{
}

/// A listing request keeps only records that agree with it: a record it keeps has, in
/// each field it sets among `id`, `name`, `ticker`, the value the request sets
/// (where an empty or non-positive value sets no condition). The blank
/// request keeps every record, and a kept record is still kept when a field
/// of the request is set to that record's own value.
pub proof fn lemma_lists_filters(m: Asset, req: AssetRequest)
    ensures
        spec_lists(m, (AssetRequest { id: None, name: None, ticker: None, free: None, locked: None })),
        req.id matches Some(v) ==> (spec_lists(m, req) ==> m.id == v),
        req.name matches Some(v) ==> (spec_lists(m, req) ==> m.name@ == v@),
        req.ticker matches Some(v) ==> (spec_lists(m, req) ==> m.ticker@ == v@),
        spec_lists(m, req) ==> spec_lists(m, (AssetRequest { id: Some(m.id), ..req })),
        spec_lists(m, req) ==> spec_lists(m, (AssetRequest { name: Some(m.name), ..req })),
        spec_lists(m, req) ==> spec_lists(m, (AssetRequest { ticker: Some(m.ticker), ..req })),
{
}

/// `m` after an update request at time `now`: every field the request sets is replaced, and the update time becomes `now`.
pub open spec fn spec_apply_update(m: Asset, req: AssetRequest, now: i64) -> Asset {
    Asset {
        id: m.id,
        name: match req.name { Some(v) => v, None => m.name },
        ticker: match req.ticker { Some(v) => v, None => m.ticker },
        free: match req.free { Some(v) => v, None => m.free },
        locked: match req.locked { Some(v) => v, None => m.locked },
        last_update: now,
    }
}

/// An update request: each field the request sets among those it may change takes the
/// request's value, an unset one keeps the record's, the other fields stay as
/// they are (the update time becomes `now`), and doing it twice is doing it once.
pub proof fn lemma_apply_update_fields(m: Asset, req: AssetRequest, now: i64)
    ensures
        spec_apply_update(m, req, now).id == m.id,
        req.name matches Some(v) ==> spec_apply_update(m, req, now).name == v,
        req.name is None ==> spec_apply_update(m, req, now).name == m.name,
        req.ticker matches Some(v) ==> spec_apply_update(m, req, now).ticker == v,
        req.ticker is None ==> spec_apply_update(m, req, now).ticker == m.ticker,
        req.free matches Some(v) ==> spec_apply_update(m, req, now).free == v,
        req.free is None ==> spec_apply_update(m, req, now).free == m.free,
        req.locked matches Some(v) ==> spec_apply_update(m, req, now).locked == v,
        req.locked is None ==> spec_apply_update(m, req, now).locked == m.locked,
        spec_apply_update(m, req, now).last_update == now,
        spec_apply_update(spec_apply_update(m, req, now), req, now) == spec_apply_update(m, req, now),
{
}

/// Whether `r` is the record with every field at its default.
pub open spec fn spec_is_default(r: Asset) -> bool {
    &&& r.id == 0i32
    &&& r.name@ == Seq::<char>::empty()
    &&& r.ticker@ == Seq::<char>::empty()
    &&& r.free == Amount::spec_zero()
    &&& r.locked == Amount::spec_zero()
    &&& r.last_update == 0i64
}

impl Asset {
    /// The record with every field at its default.
    pub fn default_record() -> (res: Self)
        ensures
            spec_is_default(res),
    {
        Asset {
            id: 0i32,
            name: empty_text(),
            ticker: empty_text(),
            free: Amount::zero(),
            locked: Amount::zero(),
            last_update: 0i64,
        }
    }

    pub fn duplicate(&self) -> (res: Self)
        ensures
            res == *self,
    {
        Asset {
            id: self.id,
            name: self.name.clone(),
            ticker: self.ticker.clone(),
            free: self.free,
            locked: self.locked,
            last_update: self.last_update,
        }
    }

    /// This record after an update request at time `now`.
    pub fn apply_update(&self, req: &AssetRequest, now: i64) -> (res: Self)
        ensures
            res == spec_apply_update(*self, *req, now),
    {
        Asset {
            id: self.id,
            name: match &req.name { Some(v) => v.clone(), None => self.name.clone() },
            ticker: match &req.ticker { Some(v) => v.clone(), None => self.ticker.clone() },
            free: match req.free { Some(v) => v, None => self.free },
            locked: match req.locked { Some(v) => v, None => self.locked },
            last_update: now,
        }
    }

    pub fn selects(&self, req: &AssetRequest) -> (res: bool)
        ensures
            res == spec_selects(*self, *req),
    {
        (match req.id { Some(v) => self.id == v, None => true })
        && (match &req.name { Some(v) => text_is(&self.name, v), None => true })
        && (match &req.ticker { Some(v) => text_is(&self.ticker, v), None => true })
    }

    pub fn lists(&self, req: &AssetRequest) -> (res: bool)
        ensures
            res == spec_lists(*self, *req),
    {
        (match req.id { Some(v) => self.id == v, None => true })
        && (match &req.name { Some(v) => text_is(&self.name, v), None => true })
        && (match &req.ticker { Some(v) => text_is(&self.ticker, v), None => true })
    }

}

impl AssetRequest {
    /// The request with no field set.
    pub fn blank() -> (res: Self)
        ensures
            res.id is None,
            res.name is None,
            res.ticker is None,
            res.free is None,
            res.locked is None,
    {
        AssetRequest { id: None, name: None, ticker: None, free: None, locked: None }
    }

    pub fn duplicate(&self) -> (res: Self)
        ensures
            res == *self,
    {
        AssetRequest {
            id: self.id,
            name: clone_text(&self.name),
            ticker: clone_text(&self.ticker),
            free: self.free,
            locked: self.locked,
        }
    }
}

/// Whether a lookup of the in-memory assets table finds `m`: the record whose id is the request's (0 when it sets none).
pub open spec fn spec_mock_finds(m: Asset, req: AssetRequest) -> bool {
    &&& (m.id == (match req.id { Some(v) => v, None => 0i32 }))
}

/// Whether a listing of the in-memory assets table keeps `m`: every record, whatever the request.
pub open spec fn spec_mock_lists(m: Asset, req: AssetRequest) -> bool {
    true
}

/// A lookup of the in-memory table finds exactly the record whose id is the
/// request's, and the record with id 0 when the request sets no id.
pub proof fn lemma_mock_finds_by_id(m: Asset, req: AssetRequest)
    ensures
        req.id matches Some(v) ==> (spec_mock_finds(m, req) <==> m.id == v),
        req.id is None ==> (spec_mock_finds(m, req) <==> m.id == 0),
{
}

/// A listing of the in-memory table keeps every record, whatever the request.
pub proof fn lemma_mock_lists_keeps_all(m: Asset, req: AssetRequest)
    ensures
        spec_mock_lists(m, req),
{
}

/// `m` after an update of the in-memory assets table at time `now`: the request replaces `name` where it sets them.
pub open spec fn spec_mock_update(m: Asset, req: AssetRequest, now: i64) -> Asset {
    Asset {
        id: m.id,
        name: match req.name { Some(v) => v, None => m.name },
        ticker: m.ticker,
        free: m.free,
        locked: m.locked,
        last_update: m.last_update,
    }
}

/// An update of the in-memory table: each field the request sets among those it may change takes the
/// request's value, an unset one keeps the record's, the other fields stay as
/// they are (the update time becomes `now`), and doing it twice is doing it once.
pub proof fn lemma_mock_update_fields(m: Asset, req: AssetRequest, now: i64)
    ensures
        spec_mock_update(m, req, now).id == m.id,
        req.name matches Some(v) ==> spec_mock_update(m, req, now).name == v,
        req.name is None ==> spec_mock_update(m, req, now).name == m.name,
        spec_mock_update(m, req, now).ticker == m.ticker,
        spec_mock_update(m, req, now).free == m.free,
        spec_mock_update(m, req, now).locked == m.locked,
        spec_mock_update(m, req, now).last_update == m.last_update,
        spec_mock_update(spec_mock_update(m, req, now), req, now) == spec_mock_update(m, req, now),
{
}

impl Asset {
    pub fn mock_finds(&self, req: &AssetRequest) -> (res: bool)
        ensures
            res == spec_mock_finds(*self, *req),
    {
        (self.id == (match req.id { Some(v) => v, None => 0i32 }))
    }

    pub fn mock_lists(&self, req: &AssetRequest) -> (res: bool)
        ensures
            res == spec_mock_lists(*self, *req),
    {
        true
    }

    pub fn mock_update(&self, req: &AssetRequest, now: i64) -> (res: Self)
        ensures
            res == spec_mock_update(*self, *req, now),
    {
        Asset {
            id: self.id,
            name: match &req.name { Some(v) => v.clone(), None => self.name.clone() },
            ticker: self.ticker.clone(),
            free: self.free,
            locked: self.locked,
            last_update: self.last_update,
        }
    }
}

/// Whether `r` is the record the in-memory assets table creates for an insert
/// request when it holds `len` records, at time `now`: its id is the request's id, else 0;
/// the other fields as the rules of this table say.
pub open spec fn spec_mock_created(r: Asset, req: AssetRequest, len: nat, now: i64) -> bool {
    &&& r.id == (match req.id { Some(v) => v, None => 0i32 })
    &&& r.name@ == (match req.name { Some(v) => v@, None => Seq::<char>::empty() })
    &&& r.ticker@ == (match req.ticker { Some(v) => v@, None => Seq::<char>::empty() })
    &&& r.free == (match req.free { Some(v) => v, None => Amount::spec_zero() })
    &&& r.locked == (match req.locked { Some(v) => v, None => Amount::spec_zero() })
    &&& r.last_update == now
}

/// A record the in-memory table creates has the id its rule gives (the request's id, else 0)
/// and each other field as the table's rules say: the request's value where it
/// sets one, else the default.
pub proof fn lemma_mock_created_fields(r: Asset, req: AssetRequest, len: nat, now: i64)
    requires
        len < 2147483647,
        spec_mock_created(r, req, len, now),
    ensures
        req.id matches Some(v) ==> r.id == v,
        req.id is None ==> r.id == 0,
        req.name matches Some(v) ==> r.name@ == v@,
        req.name is None ==> r.name@ == Seq::<char>::empty(),
        req.ticker matches Some(v) ==> r.ticker@ == v@,
        req.ticker is None ==> r.ticker@ == Seq::<char>::empty(),
        req.free matches Some(v) ==> r.free == v,
        req.free is None ==> r.free == Amount::spec_zero(),
        req.locked matches Some(v) ==> r.locked == v,
        req.locked is None ==> r.locked == Amount::spec_zero(),
        r.last_update == now,
{
}

impl Asset {
    pub fn mock_created(req: &AssetRequest, len: usize, now: i64) -> (res: Self)
        requires
            len < 2147483647,
        ensures
            spec_mock_created(res, *req, len as nat, now),
    {
        Asset {
            id: match req.id { Some(v) => v, None => 0i32 },
            name: match &req.name { Some(v) => v.clone(), None => empty_text() },
            ticker: match &req.ticker { Some(v) => v.clone(), None => empty_text() },
            free: match req.free { Some(v) => v, None => Amount::zero() },
            locked: match req.locked { Some(v) => v, None => Amount::zero() },
            last_update: now,
        }
    }
}

impl Record for Asset {
    type Request = AssetRequest;

    open spec fn key(&self) -> i32 {
        self.id
    }

    open spec fn request_key(req: &AssetRequest) -> Option<i32> {
        req.id
    }

    open spec fn spec_finds(&self, req: &AssetRequest) -> bool {
        spec_mock_finds(*self, *req)
    }

    open spec fn spec_created(&self, req: &AssetRequest, len: nat, now: i64) -> bool {
        spec_mock_created(*self, *req, len, now)
    }

    open spec fn spec_matches(&self, req: &AssetRequest) -> bool {
        spec_mock_lists(*self, *req)
    }

    open spec fn spec_patched(&self, req: &AssetRequest, now: i64) -> Self {
        spec_mock_update(*self, *req, now)
    }

    open spec fn paging() -> Paging {
        Paging::LimitOnly
    }

    open spec fn spec_missing_id_message() -> Seq<char> {
        "Invalid mock update id"@
    }

    fn record_id(&self) -> (id: i32) {
        self.id
    }

    fn request_id(req: &AssetRequest) -> (id: Option<i32>) {
        req.id
    }

    fn finds(&self, req: &AssetRequest) -> (b: bool) {
        self.mock_finds(req)
    }

    fn created(req: &AssetRequest, len: usize, now: i64) -> (r: Self) {
        Asset::mock_created(req, len, now)
    }

    fn matches(&self, req: &AssetRequest) -> (b: bool) {
        self.mock_lists(req)
    }

    fn patched(&self, req: &AssetRequest, now: i64) -> (r: Self) {
        self.mock_update(req, now)
    }

    fn listing_paging() -> (p: Paging) {
        Paging::LimitOnly
    }

    fn missing_id_message() -> (m: String) {
        String::from_str("Invalid mock update id")
    }

    fn duplicate(&self) -> (r: Self) {
        Asset::duplicate(self)
    }

    proof fn lemma_patch_keeps_key(&self, req: &AssetRequest, now: i64) {
    }
}

} // verus!
