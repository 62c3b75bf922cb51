use vstd::prelude::*;

use crate::entities::common::{clone_text, empty_text, text_is};
use crate::query::{build_plan, order_by_name, spec_plan, options_shape, ListingDefaults, OrderDirection, QueryOptions, QueryPlan};
use crate::repository::{Paging, Record};
use crate::text::text_eq;

verus! {

/// A stored integration with an outside service (such as an exchange).
pub struct Integration {
    pub id: i32,
    pub name: String,
    pub code: String,
    pub is_enabled: bool,
    pub creation_date: i64,
    pub last_update_date: i64,
}

/// A request on the integrations table: every field that is set selects or changes.
pub struct IntegrationRequest {
    pub id: Option<i32>,
    pub name: Option<String>,
    pub code: Option<String>,
    pub is_enabled: Option<bool>,
}

/// The columns of the integrations table.
#[derive(Debug, Clone, Copy, PartialEq, Eq, Structural)]
pub enum IntegrationColumn {
    Id,
    Name,
    Code,
    IsEnabled,
    CreationDate,
    LastUpdateDate,
}

/// The column a listing may be ordered by, from its name.
pub open spec fn spec_parse_order_column(value: Seq<char>) -> Option<IntegrationColumn> {
    if value == "id"@ {
        Some(IntegrationColumn::Id)
    } else if value == "name"@ {
        Some(IntegrationColumn::Name)
    } else if value == "code"@ {
        Some(IntegrationColumn::Code)
    } else if value == "is_enabled"@ {
        Some(IntegrationColumn::IsEnabled)
    } else if value == "creation_date"@ {
        Some(IntegrationColumn::CreationDate)
    } else if value == "last_update_date"@ {
        Some(IntegrationColumn::LastUpdateDate)
    } else {
        None
    }
}

/// Each column name reads as its own column.
pub proof fn lemma_column_names_read_back()
    ensures
        spec_parse_order_column("id"@) == Some(IntegrationColumn::Id),
        spec_parse_order_column("name"@) == Some(IntegrationColumn::Name),
        spec_parse_order_column("code"@) == Some(IntegrationColumn::Code),
        spec_parse_order_column("is_enabled"@) == Some(IntegrationColumn::IsEnabled),
        spec_parse_order_column("creation_date"@) == Some(IntegrationColumn::CreationDate),
        spec_parse_order_column("last_update_date"@) == Some(IntegrationColumn::LastUpdateDate),
{
    reveal_strlit("id");
    assert("id"@.len() == 2);
    reveal_strlit("name");
    assert("name"@.len() == 4);
    reveal_strlit("code");
    assert("code"@.len() == 4);
    reveal_strlit("is_enabled");
    assert("is_enabled"@.len() == 10);
    reveal_strlit("creation_date");
    assert("creation_date"@.len() == 13);
    reveal_strlit("last_update_date");
    assert("last_update_date"@.len() == 16);
    assert("code"@[0] != "name"@[0]);
}

/// Reads the name of a column a listing may be ordered by; other names are ignored.
pub fn parse_order_column(value: &str) -> (res: Option<IntegrationColumn>)
    ensures
        res == spec_parse_order_column(value@),
{
    if text_eq(value, "id") {
        Some(IntegrationColumn::Id)
    } else if text_eq(value, "name") {
        Some(IntegrationColumn::Name)
    } else if text_eq(value, "code") {
        Some(IntegrationColumn::Code)
    } else if text_eq(value, "is_enabled") {
        Some(IntegrationColumn::IsEnabled)
    } else if text_eq(value, "creation_date") {
        Some(IntegrationColumn::CreationDate)
    } else if text_eq(value, "last_update_date") {
        Some(IntegrationColumn::LastUpdateDate)
    } else {
        None
    }
}

/// How the integrations listing reads its table before the request's options apply.
pub open spec fn spec_listing_defaults() -> ListingDefaults<IntegrationColumn> {
    ListingDefaults { limit: None, primary: None, direction: OrderDirection::Asc }
}

pub fn listing_defaults() -> (res: ListingDefaults<IntegrationColumn>)
    ensures
        res == spec_listing_defaults(),
{
    ListingDefaults { limit: None, primary: None, direction: OrderDirection::Asc }
}

/// The plan of a listing of the integrations table with these options.
pub fn plan_query(query: &Option<QueryOptions>) -> (res: QueryPlan<IntegrationColumn>)
    ensures
        (res.limit, res.offset, res.ordering@) == spec_plan(
            spec_listing_defaults(),
            options_shape(*query),
            match query {
                Some(q) => match q.order_by {
                    Some(name) => spec_parse_order_column(name@),
                    None => None,
                },
                None => None,
            },
        ),
{
    let column = match order_by_name(query) {
        Some(name) => parse_order_column(name),
        None => None,
    };
    build_plan(&listing_defaults(), query, column)
}

/// Whether `r` is the record an insert request creates under id `id` at time `now`: unset fields take their defaults; both dates are `now`.
pub open spec fn spec_is_new_record(r: Integration, req: IntegrationRequest, id: i32, now: i64) -> bool {
    &&& r.id == (id)
    &&& r.name@ == (match req.name { Some(v) => v@, None => Seq::<char>::empty() })
    &&& r.code@ == (match req.code { Some(v) => v@, None => Seq::<char>::empty() })
    &&& r.is_enabled == (match req.is_enabled { Some(v) => v, None => false })
    &&& r.creation_date == (now)
    &&& r.last_update_date == (now)
}

pub fn new_record(req: &IntegrationRequest, id: i32, now: i64) -> (res: Integration)
    ensures
        spec_is_new_record(res, *req, id, now),
{
    Integration {
        id: id,
        name: match &req.name { Some(v) => v.clone(), None => empty_text() },
        code: match &req.code { Some(v) => v.clone(), None => empty_text() },
        is_enabled: match req.is_enabled { Some(v) => v, None => false },
        creation_date: now,
        last_update_date: now,
    }
}

/// A new record has the id it is given, each field an insert request sets
/// at the request's value and each other field at its default (the dates the
/// table fills at the time of the insert).
pub proof fn lemma_new_record_fields(r: Integration, req: IntegrationRequest, id: i32, now: i64)
    requires
        spec_is_new_record(r, req, id, now),
    ensures
        r.id == id,
        req.name matches Some(v) ==> r.name@ == v@,
        req.name is None ==> r.name@ == Seq::<char>::empty(),
        req.code matches Some(v) ==> r.code@ == v@,
        req.code is None ==> r.code@ == Seq::<char>::empty(),
        req.is_enabled matches Some(v) ==> r.is_enabled == v,
        req.is_enabled is None ==> r.is_enabled == false,
        r.creation_date == now,
        r.last_update_date == now,
{
}

/// Whether a single-record request selects `m` (the conditions of a lookup).
pub open spec fn spec_selects(m: Integration, req: IntegrationRequest) -> bool {
    &&& (match req.id { Some(v) => m.id == v, None => true })
    &&& (match req.name { Some(v) => m.name@ == v@, None => true })
    &&& (match req.code { Some(v) => m.code@ == v@, None => true })
    &&& (match req.is_enabled { Some(v) => m.is_enabled == v, None => true })
}

/// Whether a listing request selects `m` (the conditions of a listing).
pub open spec fn spec_lists(m: Integration, req: IntegrationRequest) -> bool {
    &&& (match req.id { Some(v) => m.id == v, None => true })
    &&& (match req.name { Some(v) => m.name@ == v@, None => true })
    &&& (match req.code { Some(v) => m.code@ == v@, None => true })
    &&& (match req.is_enabled { Some(v) => m.is_enabled == v, None => true })
}

/// A single-record request keeps only records that agree with it: a record it keeps has, in
/// each field it sets among `id`, `name`, `code`, `is_enabled`, the value the request sets
/// (where an empty or non-positive value sets no condition). The blank
/// request keeps every record, and a kept record is still kept when a field
/// of the request is set to that record's own value.
pub proof fn lemma_selects_filters(m: Integration, req: IntegrationRequest)
    ensures
        spec_selects(m, (IntegrationRequest { id: None, name: None, code: None, is_enabled: None })),
        req.id matches Some(v) ==> (spec_selects(m, req) ==> m.id == v),
        req.name matches Some(v) ==> (spec_selects(m, req) ==> m.name@ == v@),
        req.code matches Some(v) ==> (spec_selects(m, req) ==> m.code@ == v@),
        req.is_enabled matches Some(v) ==> (spec_selects(m, req) ==> m.is_enabled == v),
        spec_selects(m, req) ==> spec_selects(m, (IntegrationRequest { id: Some(m.id), ..req })),
        spec_selects(m, req) ==> spec_selects(m, (IntegrationRequest { name: Some(m.name), ..req })),
        spec_selects(m, req) ==> spec_selects(m, (IntegrationRequest { code: Some(m.code), ..req })),
        spec_selects(m, req) ==> spec_selects(m, (IntegrationRequest { is_enabled: Some(m.is_enabled), ..req })),
{
}

/// A listing request keeps only records that agree with it: a record it keeps has, in
/// each field it sets among `id`, `name`, `code`, `is_enabled`, the value the request sets
/// (where an empty or non-positive value sets no condition). The blank
/// request keeps every record, and a kept record is still kept when a field
/// of the request is set to that record's own value.
pub proof fn lemma_lists_filters(m: Integration, req: IntegrationRequest)
    ensures
        spec_lists(m, (IntegrationRequest { id: None, name: None, code: None, is_enabled: None })),
        req.id matches Some(v) ==> (spec_lists(m, req) ==> m.id == v),
        req.name matches Some(v) ==> (spec_lists(m, req) ==> m.name@ == v@),
        req.code matches Some(v) ==> (spec_lists(m, req) ==> m.code@ == v@),
        req.is_enabled matches Some(v) ==> (spec_lists(m, req) ==> m.is_enabled == v),
        spec_lists(m, req) ==> spec_lists(m, (IntegrationRequest { id: Some(m.id), ..req })),
        spec_lists(m, req) ==> spec_lists(m, (IntegrationRequest { name: Some(m.name), ..req })),
        spec_lists(m, req) ==> spec_lists(m, (IntegrationRequest { code: Some(m.code), ..req })),
        spec_lists(m, req) ==> spec_lists(m, (IntegrationRequest { is_enabled: Some(m.is_enabled), ..req })),
{
}

/// `m` after an update request at time `now`: only whether it is enabled can change, and the update time becomes `now`.
pub open spec fn spec_apply_update(m: Integration, req: IntegrationRequest, now: i64) -> Integration {
    Integration {
        id: m.id,
        name: m.name,
        code: m.code,
        is_enabled: match req.is_enabled { Some(v) => v, None => m.is_enabled },
        creation_date: m.creation_date,
        last_update_date: now,
    }
}

/// An update request: each field the request sets among those it may change takes the
/// request's value, an unset one keeps the record's, the other fields stay as
/// they are (the update time becomes `now`), and doing it twice is doing it once.
pub proof fn lemma_apply_update_fields(m: Integration, req: IntegrationRequest, now: i64)
    ensures
        spec_apply_update(m, req, now).id == m.id,
        spec_apply_update(m, req, now).name == m.name,
        spec_apply_update(m, req, now).code == m.code,
        req.is_enabled matches Some(v) ==> spec_apply_update(m, req, now).is_enabled == v,
        req.is_enabled is None ==> spec_apply_update(m, req, now).is_enabled == m.is_enabled,
        spec_apply_update(m, req, now).creation_date == m.creation_date,
        spec_apply_update(m, req, now).last_update_date == now,
        spec_apply_update(spec_apply_update(m, req, now), req, now) == spec_apply_update(m, req, now),
{
}

/// Whether `r` is the record with every field at its default.
pub open spec fn spec_is_default(r: Integration) -> bool {
    &&& r.id == 0i32
    &&& r.name@ == Seq::<char>::empty()
    &&& r.code@ == Seq::<char>::empty()
    &&& r.is_enabled == false
    &&& r.creation_date == 0i64
    &&& r.last_update_date == 0i64
}

impl Integration {
    /// The record with every field at its default.
    pub fn default_record() -> (res: Self)
        ensures
            spec_is_default(res),
    {
        Integration {
            id: 0i32,
            name: empty_text(),
            code: empty_text(),
            is_enabled: false,
            creation_date: 0i64,
            last_update_date: 0i64,
        }
    }

    pub fn duplicate(&self) -> (res: Self)
        ensures
            res == *self,
    {
        Integration {
            id: self.id,
            name: self.name.clone(),
            code: self.code.clone(),
            is_enabled: self.is_enabled,
            creation_date: self.creation_date,
            last_update_date: self.last_update_date,
        }
    }

    /// This record after an update request at time `now`.
    pub fn apply_update(&self, req: &IntegrationRequest, now: i64) -> (res: Self)
        ensures
            res == spec_apply_update(*self, *req, now),
    {
        Integration {
            id: self.id,
            name: self.name.clone(),
            code: self.code.clone(),
            is_enabled: match req.is_enabled { Some(v) => v, None => self.is_enabled },
            creation_date: self.creation_date,
            last_update_date: now,
        }
    }

    pub fn selects(&self, req: &IntegrationRequest) -> (res: bool)
        ensures
            res == spec_selects(*self, *req),
    {
        (match req.id { Some(v) => self.id == v, None => true })
        && (match &req.name { Some(v) => text_is(&self.name, v), None => true })
        && (match &req.code { Some(v) => text_is(&self.code, v), None => true })
        && (match req.is_enabled { Some(v) => self.is_enabled == v, None => true })
    }

    pub fn lists(&self, req: &IntegrationRequest) -> (res: bool)
        ensures
            res == spec_lists(*self, *req),
    {
        (match req.id { Some(v) => self.id == v, None => true })
        && (match &req.name { Some(v) => text_is(&self.name, v), None => true })
        && (match &req.code { Some(v) => text_is(&self.code, v), None => true })
        && (match req.is_enabled { Some(v) => self.is_enabled == v, None => true })
    }

}

impl IntegrationRequest {
    /// The request with no field set.
    pub fn blank() -> (res: Self)
        ensures
            res.id is None,
            res.name is None,
            res.code is None,
            res.is_enabled is None,
    {
        IntegrationRequest { id: None, name: None, code: None, is_enabled: None }
    }

    pub fn duplicate(&self) -> (res: Self)
        ensures
            res == *self,
    {
        IntegrationRequest {
            id: self.id,
            name: clone_text(&self.name),
            code: clone_text(&self.code),
            is_enabled: self.is_enabled,
        }
    }
}

/// Whether a lookup of the in-memory integrations table finds `m`: the record whose id is the request's (0 when it sets none).
pub open spec fn spec_mock_finds(m: Integration, req: IntegrationRequest) -> bool {
    &&& (m.id == (match req.id { Some(v) => v, None => 0i32 }))
}

/// Whether a listing of the in-memory integrations table keeps `m`: every record, whatever the request.
pub open spec fn spec_mock_lists(m: Integration, req: IntegrationRequest) -> bool {
    true
}

/// A lookup of the in-memory table finds exactly the record whose id is the
/// request's, and the record with id 0 when the request sets no id.
pub proof fn lemma_mock_finds_by_id(m: Integration, req: IntegrationRequest)
    ensures
        req.id matches Some(v) ==> (spec_mock_finds(m, req) <==> m.id == v),
        req.id is None ==> (spec_mock_finds(m, req) <==> m.id == 0),
{
}

/// A listing of the in-memory table keeps every record, whatever the request.
pub proof fn lemma_mock_lists_keeps_all(m: Integration, req: IntegrationRequest)
    ensures
        spec_mock_lists(m, req),
{
}

/// `m` after an update of the in-memory integrations table at time `now`: nothing changes.
pub open spec fn spec_mock_update(m: Integration, req: IntegrationRequest, now: i64) -> Integration {
    Integration {
        id: m.id,
        name: m.name,
        code: m.code,
        is_enabled: m.is_enabled,
        creation_date: m.creation_date,
        last_update_date: m.last_update_date,
    }
}

/// An update of the in-memory table: each field the request sets among those it may change takes the
/// request's value, an unset one keeps the record's, the other fields stay as
/// they are (the update time becomes `now`), and doing it twice is doing it once.
pub proof fn lemma_mock_update_fields(m: Integration, req: IntegrationRequest, now: i64)
    ensures
        spec_mock_update(m, req, now).id == m.id,
        spec_mock_update(m, req, now).name == m.name,
        spec_mock_update(m, req, now).code == m.code,
        spec_mock_update(m, req, now).is_enabled == m.is_enabled,
        spec_mock_update(m, req, now).creation_date == m.creation_date,
        spec_mock_update(m, req, now).last_update_date == m.last_update_date,
        spec_mock_update(spec_mock_update(m, req, now), req, now) == spec_mock_update(m, req, now),
{
}

impl Integration {
    pub fn mock_finds(&self, req: &IntegrationRequest) -> (res: bool)
        ensures
            res == spec_mock_finds(*self, *req),
    {
        (self.id == (match req.id { Some(v) => v, None => 0i32 }))
    }

    pub fn mock_lists(&self, req: &IntegrationRequest) -> (res: bool)
        ensures
            res == spec_mock_lists(*self, *req),
    {
        true
    }

    pub fn mock_update(&self, req: &IntegrationRequest, now: i64) -> (res: Self)
        ensures
            res == spec_mock_update(*self, *req, now),
    {
        Integration {
            id: self.id,
            name: self.name.clone(),
            code: self.code.clone(),
            is_enabled: self.is_enabled,
            creation_date: self.creation_date,
            last_update_date: self.last_update_date,
        }
    }
}

/// Whether `r` is the record the in-memory integrations table creates for an insert
/// request when it holds `len` records, at time `now`: its id is the request's id, else 0;
/// the other fields as the rules of this table say.
pub open spec fn spec_mock_created(r: Integration, req: IntegrationRequest, len: nat, now: i64) -> bool {
    &&& r.id == (match req.id { Some(v) => v, None => 0i32 })
    &&& r.name@ == Seq::<char>::empty()
    &&& r.code@ == Seq::<char>::empty()
    &&& r.is_enabled == false
    &&& r.creation_date == 0i64
    &&& r.last_update_date == 0i64
}

/// A record the in-memory table creates has the id its rule gives (the request's id, else 0)
/// and each other field as the table's rules say: the request's value where it
/// sets one, else the default.
pub proof fn lemma_mock_created_fields(r: Integration, req: IntegrationRequest, len: nat, now: i64)
    requires
        len < 2147483647,
        spec_mock_created(r, req, len, now),
    ensures
        req.id matches Some(v) ==> r.id == v,
        req.id is None ==> r.id == 0,
        r.name@ == Seq::<char>::empty(),
        r.code@ == Seq::<char>::empty(),
        r.is_enabled == false,
        r.creation_date == 0i64,
        r.last_update_date == 0i64,
{
}

impl Integration {
    pub fn mock_created(req: &IntegrationRequest, len: usize, now: i64) -> (res: Self)
        requires
            len < 2147483647,
        ensures
            spec_mock_created(res, *req, len as nat, now),
    {
        Integration {
            id: match req.id { Some(v) => v, None => 0i32 },
            name: empty_text(),
            code: empty_text(),
            is_enabled: false,
            creation_date: 0i64,
            last_update_date: 0i64,
        }
    }
}

impl Record for Integration {
    type Request = IntegrationRequest;

    open spec fn key(&self) -> i32 {
        self.id
    }

    open spec fn request_key(req: &IntegrationRequest) -> Option<i32> {
        req.id
    }

    open spec fn spec_finds(&self, req: &IntegrationRequest) -> bool {
        spec_mock_finds(*self, *req)
    }

    open spec fn spec_created(&self, req: &IntegrationRequest, len: nat, now: i64) -> bool {
        spec_mock_created(*self, *req, len, now)
    }

    open spec fn spec_matches(&self, req: &IntegrationRequest) -> bool {
        spec_mock_lists(*self, *req)
    }

    open spec fn spec_patched(&self, req: &IntegrationRequest, now: i64) -> Self {
        spec_mock_update(*self, *req, now)
    }

    open spec fn paging() -> Paging {
        Paging::LimitOnly
    }

    open spec fn spec_missing_id_message() -> Seq<char> {
        "Invalid mock update id"@
    }

    fn record_id(&self) -> (id: i32) {
        self.id
    }

    fn request_id(req: &IntegrationRequest) -> (id: Option<i32>) {
        req.id
    }

    fn finds(&self, req: &IntegrationRequest) -> (b: bool) {
        self.mock_finds(req)
    }

    fn created(req: &IntegrationRequest, len: usize, now: i64) -> (r: Self) {
        Integration::mock_created(req, len, now)
    }

    fn matches(&self, req: &IntegrationRequest) -> (b: bool) {
        self.mock_lists(req)
    }

    fn patched(&self, req: &IntegrationRequest, now: i64) -> (r: Self) {
        self.mock_update(req, now)
    }

    fn listing_paging() -> (p: Paging) {
        Paging::LimitOnly
    }

    fn missing_id_message() -> (m: String) {
        String::from_str("Invalid mock update id")
    }

    fn duplicate(&self) -> (r: Self) {
        Integration::duplicate(self)
    }

    proof fn lemma_patch_keeps_key(&self, req: &IntegrationRequest, now: i64) {
    }
}

} // verus!
