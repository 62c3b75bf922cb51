use vstd::prelude::*;

use crate::entities::common::{clone_text, empty_text, text_is};
use crate::query::{build_plan, order_by_name, spec_plan, options_shape, ListingDefaults, OrderDirection, QueryOptions, QueryPlan};
use crate::repository::{Paging, Record};
use crate::text::text_eq;

verus! {

/// A stored setting of an integration (such as an API key), as a named value.
pub struct IntegrationSetting {
    pub id: i32,
    pub integration_id: i32,
    pub name: String,
    pub nick: String,
    pub value: String,
    pub creation_date: i64,
    pub last_update_date: i64,
}

/// A request on the integration settings table: every field that is set selects or changes.
pub struct IntegrationSettingRequest {
    pub id: Option<i32>,
    pub integration_id: Option<i32>,
    pub name: Option<String>,
    pub nick: Option<String>,
    pub value: Option<String>,
}

/// The columns of the integration settings table.
#[derive(Debug, Clone, Copy, PartialEq, Eq, Structural)]
pub enum IntegrationSettingColumn {
    Id,
    IntegrationId,
    Name,
    Nick,
    Value,
    CreationDate,
    LastUpdateDate,
}

/// The column a listing may be ordered by, from its name.
pub open spec fn spec_parse_order_column(value: Seq<char>) -> Option<IntegrationSettingColumn> {
    if value == "id"@ {
        Some(IntegrationSettingColumn::Id)
    } else if value == "integration_id"@ {
        Some(IntegrationSettingColumn::IntegrationId)
    } else if value == "name"@ {
        Some(IntegrationSettingColumn::Name)
    } else if value == "nick"@ {
        Some(IntegrationSettingColumn::Nick)
    } else if value == "value"@ {
        Some(IntegrationSettingColumn::Value)
    } else if value == "creation_date"@ {
        Some(IntegrationSettingColumn::CreationDate)
    } else if value == "last_update_date"@ {
        Some(IntegrationSettingColumn::LastUpdateDate)
    } else {
        None
    }
}

/// Each column name reads as its own column.
pub proof fn lemma_column_names_read_back()
    ensures
        spec_parse_order_column("id"@) == Some(IntegrationSettingColumn::Id),
        spec_parse_order_column("integration_id"@) == Some(IntegrationSettingColumn::IntegrationId),
        spec_parse_order_column("name"@) == Some(IntegrationSettingColumn::Name),
        spec_parse_order_column("nick"@) == Some(IntegrationSettingColumn::Nick),
        spec_parse_order_column("value"@) == Some(IntegrationSettingColumn::Value),
        spec_parse_order_column("creation_date"@) == Some(IntegrationSettingColumn::CreationDate),
        spec_parse_order_column("last_update_date"@) == Some(IntegrationSettingColumn::LastUpdateDate),
{
    reveal_strlit("id");
    assert("id"@.len() == 2);
    reveal_strlit("integration_id");
    assert("integration_id"@.len() == 14);
    reveal_strlit("name");
    assert("name"@.len() == 4);
    reveal_strlit("nick");
    assert("nick"@.len() == 4);
    reveal_strlit("value");
    assert("value"@.len() == 5);
    reveal_strlit("creation_date");
    assert("creation_date"@.len() == 13);
    reveal_strlit("last_update_date");
    assert("last_update_date"@.len() == 16);
    assert("nick"@[1] != "name"@[1]);
}

/// Reads the name of a column a listing may be ordered by; other names are ignored.
pub fn parse_order_column(value: &str) -> (res: Option<IntegrationSettingColumn>)
    ensures
        res == spec_parse_order_column(value@),
{
    if text_eq(value, "id") {
        Some(IntegrationSettingColumn::Id)
    } else if text_eq(value, "integration_id") {
        Some(IntegrationSettingColumn::IntegrationId)
    } else if text_eq(value, "name") {
        Some(IntegrationSettingColumn::Name)
    } else if text_eq(value, "nick") {
        Some(IntegrationSettingColumn::Nick)
    } else if text_eq(value, "value") {
        Some(IntegrationSettingColumn::Value)
    } else if text_eq(value, "creation_date") {
        Some(IntegrationSettingColumn::CreationDate)
    } else if text_eq(value, "last_update_date") {
        Some(IntegrationSettingColumn::LastUpdateDate)
    } else {
        None
    }
}

/// How the integration settings listing reads its table before the request's options apply.
pub open spec fn spec_listing_defaults() -> ListingDefaults<IntegrationSettingColumn> {
    ListingDefaults { limit: None, primary: None, direction: OrderDirection::Asc }
}

pub fn listing_defaults() -> (res: ListingDefaults<IntegrationSettingColumn>)
    ensures
        res == spec_listing_defaults(),
{
    ListingDefaults { limit: None, primary: None, direction: OrderDirection::Asc }
}

/// The plan of a listing of the integration settings table with these options.
pub fn plan_query(query: &Option<QueryOptions>) -> (res: QueryPlan<IntegrationSettingColumn>)
    ensures
        (res.limit, res.offset, res.ordering@) == spec_plan(
            spec_listing_defaults(),
            options_shape(*query),
            match query {
                Some(q) => match q.order_by {
                    Some(name) => spec_parse_order_column(name@),
                    None => None,
                },
                None => None,
            },
        ),
{
    let column = match order_by_name(query) {
        Some(name) => parse_order_column(name),
        None => None,
    };
    build_plan(&listing_defaults(), query, column)
}

/// Whether `r` is the record an insert request creates under id `id` at time `now`: unset fields take their defaults; both dates are `now`.
pub open spec fn spec_is_new_record(r: IntegrationSetting, req: IntegrationSettingRequest, id: i32, now: i64) -> bool {
    &&& r.id == (id)
    &&& r.integration_id == (match req.integration_id { Some(v) => v, None => 0i32 })
    &&& r.name@ == (match req.name { Some(v) => v@, None => Seq::<char>::empty() })
    &&& r.nick@ == (match req.nick { Some(v) => v@, None => Seq::<char>::empty() })
    &&& r.value@ == (match req.value { Some(v) => v@, None => Seq::<char>::empty() })
    &&& r.creation_date == (now)
    &&& r.last_update_date == (now)
}

pub fn new_record(req: &IntegrationSettingRequest, id: i32, now: i64) -> (res: IntegrationSetting)
    ensures
        spec_is_new_record(res, *req, id, now),
{
    IntegrationSetting {
        id: id,
        integration_id: match req.integration_id { Some(v) => v, None => 0i32 },
        name: match &req.name { Some(v) => v.clone(), None => empty_text() },
        nick: match &req.nick { Some(v) => v.clone(), None => empty_text() },
        value: match &req.value { Some(v) => v.clone(), None => empty_text() },
        creation_date: now,
        last_update_date: now,
    }
}

/// A new record has the id it is given, each field an insert request sets
/// at the request's value and each other field at its default (the dates the
/// table fills at the time of the insert).
pub proof fn lemma_new_record_fields(r: IntegrationSetting, req: IntegrationSettingRequest, id: i32, now: i64)
    requires
        spec_is_new_record(r, req, id, now),
    ensures
        r.id == id,
        req.integration_id matches Some(v) ==> r.integration_id == v,
        req.integration_id is None ==> r.integration_id == 0i32,
        req.name matches Some(v) ==> r.name@ == v@,
        req.name is None ==> r.name@ == Seq::<char>::empty(),
        req.nick matches Some(v) ==> r.nick@ == v@,
        req.nick is None ==> r.nick@ == Seq::<char>::empty(),
        req.value matches Some(v) ==> r.value@ == v@,
        req.value is None ==> r.value@ == Seq::<char>::empty(),
        r.creation_date == now,
        r.last_update_date == now,
{
}

/// Whether a single-record request selects `m` (the conditions of a lookup).
pub open spec fn spec_selects(m: IntegrationSetting, req: IntegrationSettingRequest) -> bool {
    &&& (match req.id { Some(v) => m.id == v, None => true })
}

/// Whether a listing request selects `m` (the conditions of a listing).
pub open spec fn spec_lists(m: IntegrationSetting, req: IntegrationSettingRequest) -> bool {
    &&& (match req.id { Some(v) => m.id == v, None => true })
    &&& (match req.integration_id { Some(v) => m.integration_id == v, None => true })
    &&& (match req.name { Some(v) => m.name@ == v@, None => true })
    &&& (match req.nick { Some(v) => m.nick@ == v@, None => true })
}

/// A single-record request keeps only records that agree with it: a record it keeps has, in
/// each field it sets among `id`, the value the request sets
/// (where an empty or non-positive value sets no condition). The blank
/// request keeps every record, and a kept record is still kept when a field
/// of the request is set to that record's own value.
pub proof fn lemma_selects_filters(m: IntegrationSetting, req: IntegrationSettingRequest)
    ensures
        spec_selects(m, (IntegrationSettingRequest { id: None, integration_id: None, name: None, nick: None, value: None })),
        req.id matches Some(v) ==> (spec_selects(m, req) ==> m.id == v),
        spec_selects(m, req) ==> spec_selects(m, (IntegrationSettingRequest { id: Some(m.id), ..req })),
{
}

/// A listing request keeps only records that agree with it: a record it keeps has, in
/// each field it sets among `id`, `integration_id`, `name`, `nick`, the value the request sets
/// (where an empty or non-positive value sets no condition). The blank
/// request keeps every record, and a kept record is still kept when a field
/// of the request is set to that record's own value.
pub proof fn lemma_lists_filters(m: IntegrationSetting, req: IntegrationSettingRequest)
    ensures
        spec_lists(m, (IntegrationSettingRequest { id: None, integration_id: None, name: None, nick: None, value: None })),
        req.id matches Some(v) ==> (spec_lists(m, req) ==> m.id == v),
        req.integration_id matches Some(v) ==> (spec_lists(m, req) ==> m.integration_id == v),
        req.name matches Some(v) ==> (spec_lists(m, req) ==> m.name@ == v@),
        req.nick matches Some(v) ==> (spec_lists(m, req) ==> m.nick@ == v@),
        spec_lists(m, req) ==> spec_lists(m, (IntegrationSettingRequest { id: Some(m.id), ..req })),
        spec_lists(m, req) ==> spec_lists(m, (IntegrationSettingRequest { integration_id: Some(m.integration_id), ..req })),
        spec_lists(m, req) ==> spec_lists(m, (IntegrationSettingRequest { name: Some(m.name), ..req })),
        spec_lists(m, req) ==> spec_lists(m, (IntegrationSettingRequest { nick: Some(m.nick), ..req })),
{
}

/// `m` after an update request at time `now`: only the value can change, and the update time becomes `now`.
pub open spec fn spec_apply_update(m: IntegrationSetting, req: IntegrationSettingRequest, now: i64) -> IntegrationSetting {
    IntegrationSetting {
        id: m.id,
        integration_id: m.integration_id,
        name: m.name,
        nick: m.nick,
        value: match req.value { Some(v) => v, None => m.value },
        creation_date: m.creation_date,
        last_update_date: now,
    }
}

/// An update request: each field the request sets among those it may change takes the
/// request's value, an unset one keeps the record's, the other fields stay as
/// they are (the update time becomes `now`), and doing it twice is doing it once.
pub proof fn lemma_apply_update_fields(m: IntegrationSetting, req: IntegrationSettingRequest, now: i64)
    ensures
        spec_apply_update(m, req, now).id == m.id,
        spec_apply_update(m, req, now).integration_id == m.integration_id,
        spec_apply_update(m, req, now).name == m.name,
        spec_apply_update(m, req, now).nick == m.nick,
        req.value matches Some(v) ==> spec_apply_update(m, req, now).value == v,
        req.value is None ==> spec_apply_update(m, req, now).value == m.value,
        spec_apply_update(m, req, now).creation_date == m.creation_date,
        spec_apply_update(m, req, now).last_update_date == now,
        spec_apply_update(spec_apply_update(m, req, now), req, now) == spec_apply_update(m, req, now),
{
}

/// Whether `r` is the record with every field at its default.
pub open spec fn spec_is_default(r: IntegrationSetting) -> bool {
    &&& r.id == 0i32
    &&& r.integration_id == 0i32
    &&& r.name@ == Seq::<char>::empty()
    &&& r.nick@ == Seq::<char>::empty()
    &&& r.value@ == Seq::<char>::empty()
    &&& r.creation_date == 0i64
    &&& r.last_update_date == 0i64
}

impl IntegrationSetting {
    /// The record with every field at its default.
    pub fn default_record() -> (res: Self)
        ensures
            spec_is_default(res),
    {
        IntegrationSetting {
            id: 0i32,
            integration_id: 0i32,
            name: empty_text(),
            nick: empty_text(),
            value: empty_text(),
            creation_date: 0i64,
            last_update_date: 0i64,
        }
    }

    pub fn duplicate(&self) -> (res: Self)
        ensures
            res == *self,
    {
        IntegrationSetting {
            id: self.id,
            integration_id: self.integration_id,
            name: self.name.clone(),
            nick: self.nick.clone(),
            value: self.value.clone(),
            creation_date: self.creation_date,
            last_update_date: self.last_update_date,
        }
    }

    /// This record after an update request at time `now`.
    pub fn apply_update(&self, req: &IntegrationSettingRequest, now: i64) -> (res: Self)
        ensures
            res == spec_apply_update(*self, *req, now),
    {
        IntegrationSetting {
            id: self.id,
            integration_id: self.integration_id,
            name: self.name.clone(),
            nick: self.nick.clone(),
            value: match &req.value { Some(v) => v.clone(), None => self.value.clone() },
            creation_date: self.creation_date,
            last_update_date: now,
        }
    }

    pub fn selects(&self, req: &IntegrationSettingRequest) -> (res: bool)
        ensures
            res == spec_selects(*self, *req),
    {
        (match req.id { Some(v) => self.id == v, None => true })
    }

    pub fn lists(&self, req: &IntegrationSettingRequest) -> (res: bool)
        ensures
            res == spec_lists(*self, *req),
    {
        (match req.id { Some(v) => self.id == v, None => true })
        && (match req.integration_id { Some(v) => self.integration_id == v, None => true })
        && (match &req.name { Some(v) => text_is(&self.name, v), None => true })
        && (match &req.nick { Some(v) => text_is(&self.nick, v), None => true })
    }

}

impl IntegrationSettingRequest {
    /// The request with no field set.
    pub fn blank() -> (res: Self)
        ensures
            res.id is None,
            res.integration_id is None,
            res.name is None,
            res.nick is None,
            res.value is None,
    {
        IntegrationSettingRequest { id: None, integration_id: None, name: None, nick: None, value: None }
    }

    pub fn duplicate(&self) -> (res: Self)
        ensures
            res == *self,
    {
        IntegrationSettingRequest {
            id: self.id,
            integration_id: self.integration_id,
            name: clone_text(&self.name),
            nick: clone_text(&self.nick),
            value: clone_text(&self.value),
        }
    }
}

/// Whether a lookup of the in-memory integration settings table finds `m`: the record whose id is the request's (0 when it sets none).
pub open spec fn spec_mock_finds(m: IntegrationSetting, req: IntegrationSettingRequest) -> bool {
    &&& (m.id == (match req.id { Some(v) => v, None => 0i32 }))
}

/// Whether a listing of the in-memory integration settings table keeps `m`: every record, whatever the request.
pub open spec fn spec_mock_lists(m: IntegrationSetting, req: IntegrationSettingRequest) -> bool {
    true
}

/// A lookup of the in-memory table finds exactly the record whose id is the
/// request's, and the record with id 0 when the request sets no id.
pub proof fn lemma_mock_finds_by_id(m: IntegrationSetting, req: IntegrationSettingRequest)
    ensures
        req.id matches Some(v) ==> (spec_mock_finds(m, req) <==> m.id == v),
        req.id is None ==> (spec_mock_finds(m, req) <==> m.id == 0),
{
}

/// A listing of the in-memory table keeps every record, whatever the request.
pub proof fn lemma_mock_lists_keeps_all(m: IntegrationSetting, req: IntegrationSettingRequest)
    ensures
        spec_mock_lists(m, req),
{
}

/// `m` after an update of the in-memory integration settings table at time `now`: the request replaces `value` where it sets them, and `last_update_date` becomes `now`.
pub open spec fn spec_mock_update(m: IntegrationSetting, req: IntegrationSettingRequest, now: i64) -> IntegrationSetting {
    IntegrationSetting {
        id: m.id,
        integration_id: m.integration_id,
        name: m.name,
        nick: m.nick,
        value: match req.value { Some(v) => v, None => m.value },
        creation_date: m.creation_date,
        last_update_date: now,
    }
}

/// An update of the in-memory table: each field the request sets among those it may change takes the
/// request's value, an unset one keeps the record's, the other fields stay as
/// they are (the update time becomes `now`), and doing it twice is doing it once.
pub proof fn lemma_mock_update_fields(m: IntegrationSetting, req: IntegrationSettingRequest, now: i64)
    ensures
        spec_mock_update(m, req, now).id == m.id,
        spec_mock_update(m, req, now).integration_id == m.integration_id,
        spec_mock_update(m, req, now).name == m.name,
        spec_mock_update(m, req, now).nick == m.nick,
        req.value matches Some(v) ==> spec_mock_update(m, req, now).value == v,
        req.value is None ==> spec_mock_update(m, req, now).value == m.value,
        spec_mock_update(m, req, now).creation_date == m.creation_date,
        spec_mock_update(m, req, now).last_update_date == now,
        spec_mock_update(spec_mock_update(m, req, now), req, now) == spec_mock_update(m, req, now),
{
}

impl IntegrationSetting {
    pub fn mock_finds(&self, req: &IntegrationSettingRequest) -> (res: bool)
        ensures
            res == spec_mock_finds(*self, *req),
    {
        (self.id == (match req.id { Some(v) => v, None => 0i32 }))
    }

    pub fn mock_lists(&self, req: &IntegrationSettingRequest) -> (res: bool)
        ensures
            res == spec_mock_lists(*self, *req),
    {
        true
    }

    pub fn mock_update(&self, req: &IntegrationSettingRequest, now: i64) -> (res: Self)
        ensures
            res == spec_mock_update(*self, *req, now),
    {
        IntegrationSetting {
            id: self.id,
            integration_id: self.integration_id,
            name: self.name.clone(),
            nick: self.nick.clone(),
            value: match &req.value { Some(v) => v.clone(), None => self.value.clone() },
            creation_date: self.creation_date,
            last_update_date: now,
        }
    }
}

/// Whether `r` is the record the in-memory integration settings table creates for an insert
/// request when it holds `len` records, at time `now`: its id is the request's id, else one more than the number of records;
/// the other fields as the rules of this table say.
pub open spec fn spec_mock_created(r: IntegrationSetting, req: IntegrationSettingRequest, len: nat, now: i64) -> bool {
    &&& r.id == (match req.id { Some(v) => v, None => (len + 1) as i32 })
    &&& r.integration_id == (match req.integration_id { Some(v) => v, None => 0i32 })
    &&& r.name@ == (match req.name { Some(v) => v@, None => Seq::<char>::empty() })
    &&& r.nick@ == (match req.nick { Some(v) => v@, None => Seq::<char>::empty() })
    &&& r.value@ == (match req.value { Some(v) => v@, None => Seq::<char>::empty() })
    &&& r.creation_date == now
    &&& r.last_update_date == now
}

/// A record the in-memory table creates has the id its rule gives (the request's id, else one more than the number of records)
/// and each other field as the table's rules say: the request's value where it
/// sets one, else the default.
pub proof fn lemma_mock_created_fields(r: IntegrationSetting, req: IntegrationSettingRequest, len: nat, now: i64)
    requires
        len < 2147483647,
        spec_mock_created(r, req, len, now),
    ensures
        req.id matches Some(v) ==> r.id == v,
        req.id is None ==> r.id == len + 1,
        req.integration_id matches Some(v) ==> r.integration_id == v,
        req.integration_id is None ==> r.integration_id == 0i32,
        req.name matches Some(v) ==> r.name@ == v@,
        req.name is None ==> r.name@ == Seq::<char>::empty(),
        req.nick matches Some(v) ==> r.nick@ == v@,
        req.nick is None ==> r.nick@ == Seq::<char>::empty(),
        req.value matches Some(v) ==> r.value@ == v@,
        req.value is None ==> r.value@ == Seq::<char>::empty(),
        r.creation_date == now,
        r.last_update_date == now,
{
}

impl IntegrationSetting {
    pub fn mock_created(req: &IntegrationSettingRequest, len: usize, now: i64) -> (res: Self)
        requires
            len < 2147483647,
        ensures
            spec_mock_created(res, *req, len as nat, now),
    {
        IntegrationSetting {
            id: match req.id { Some(v) => v, None => (len as i32) + 1 },
            integration_id: match req.integration_id { Some(v) => v, None => 0i32 },
            name: match &req.name { Some(v) => v.clone(), None => empty_text() },
            nick: match &req.nick { Some(v) => v.clone(), None => empty_text() },
            value: match &req.value { Some(v) => v.clone(), None => empty_text() },
            creation_date: now,
            last_update_date: now,
        }
    }
}

impl Record for IntegrationSetting {
    type Request = IntegrationSettingRequest;

    open spec fn key(&self) -> i32 {
        self.id
    }

    open spec fn request_key(req: &IntegrationSettingRequest) -> Option<i32> {
        req.id
    }

    open spec fn spec_finds(&self, req: &IntegrationSettingRequest) -> bool {
        spec_mock_finds(*self, *req)
    }

    open spec fn spec_created(&self, req: &IntegrationSettingRequest, len: nat, now: i64) -> bool {
        spec_mock_created(*self, *req, len, now)
    }

    open spec fn spec_matches(&self, req: &IntegrationSettingRequest) -> bool {
        spec_mock_lists(*self, *req)
    }

    open spec fn spec_patched(&self, req: &IntegrationSettingRequest, now: i64) -> Self {
        spec_mock_update(*self, *req, now)
    }

    open spec fn paging() -> Paging {
        Paging::LimitOnly
    }

    open spec fn spec_missing_id_message() -> Seq<char> {
        "Invalid mock update id"@
    }

    fn record_id(&self) -> (id: i32) {
        self.id
    }

    fn request_id(req: &IntegrationSettingRequest) -> (id: Option<i32>) {
        req.id
    }

    fn finds(&self, req: &IntegrationSettingRequest) -> (b: bool) {
        self.mock_finds(req)
    }

    fn created(req: &IntegrationSettingRequest, len: usize, now: i64) -> (r: Self) {
        IntegrationSetting::mock_created(req, len, now)
    }

    fn matches(&self, req: &IntegrationSettingRequest) -> (b: bool) {
        self.mock_lists(req)
    }

    fn patched(&self, req: &IntegrationSettingRequest, now: i64) -> (r: Self) {
        self.mock_update(req, now)
    }

    fn listing_paging() -> (p: Paging) {
        Paging::LimitOnly
    }

    fn missing_id_message() -> (m: String) {
        String::from_str("Invalid mock update id")
    }

    fn duplicate(&self) -> (r: Self) {
        IntegrationSetting::duplicate(self)
    }

    proof fn lemma_patch_keeps_key(&self, req: &IntegrationSettingRequest, now: i64) {
    }
}

} // verus!
