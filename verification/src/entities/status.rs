use vstd::prelude::*;

use crate::entities::common::empty_text;
use crate::repository::{Paging, Record};

verus! {

/// A stored order status. Requests on this table are records too: an id of
/// 0 and an empty name mean "not set".
pub struct StatusModel {
    pub id: i32,
    pub name: String,
}

/// Whether a lookup request selects `m`: by id when the request has one.
pub open spec fn spec_selects(m: StatusModel, req: StatusModel) -> bool {
    req.id == 0 || m.id == req.id
}

/// `m` after an update request: the name is replaced when the request has one.
pub open spec fn spec_apply_update(m: StatusModel, req: StatusModel) -> StatusModel {
    if req.name@.len() == 0 {
        m
    } else {
        StatusModel { id: m.id, name: req.name }
    }
}

/// A lookup with an id selects exactly the status with that id, and one
/// without an id selects every status; an update with a name renames the
/// status and keeps its id, and one without a name changes nothing.
pub proof fn lemma_status_requests(m: StatusModel, req: StatusModel)
    ensures
        req.id != 0 ==> (spec_selects(m, req) <==> m.id == req.id),
        req.id == 0 ==> spec_selects(m, req),
        spec_apply_update(m, req).id == m.id,
        req.name@.len() > 0 ==> spec_apply_update(m, req).name == req.name,
        req.name@.len() == 0 ==> spec_apply_update(m, req) == m,
        m.spec_finds(&req) <==> m.id == req.id,
        m.spec_matches(&req),
        m.spec_created(&req, 0, 0) <==> m == req,
{
}

impl StatusModel {
    pub fn duplicate(&self) -> (res: Self)
        ensures
            res == *self,
    {
        StatusModel { id: self.id, name: self.name.clone() }
    }

    /// The record an insert request creates under id `id`: only the name is taken.
    pub fn new_record(req: &StatusModel, id: i32) -> (res: Self)
        ensures
            res == (StatusModel { id, name: req.name }),
    {
        StatusModel { id, name: req.name.clone() }
    }

    pub fn selects(&self, req: &StatusModel) -> (res: bool)
        ensures
            res == spec_selects(*self, *req),
    {
        req.id == 0 || self.id == req.id
    }

    pub fn apply_update(&self, req: &StatusModel) -> (res: Self)
        ensures
            res == spec_apply_update(*self, *req),
    {
        if req.name.as_str().unicode_len() == 0 {
            self.duplicate()
        } else {
            StatusModel { id: self.id, name: req.name.clone() }
        }
    }

    /// The request with nothing set.
    pub fn blank() -> (res: Self)
        ensures
            res.id == 0,
            res.name@ == Seq::<char>::empty(),
    {
        StatusModel { id: 0, name: empty_text() }
    }
}

impl Record for StatusModel {
    type Request = StatusModel;

    open spec fn key(&self) -> i32 {
        self.id
    }

    open spec fn request_key(req: &StatusModel) -> Option<i32> {
        Some(req.id)
    }

    /// An insert stores the request as it is.
    open spec fn spec_created(&self, req: &StatusModel, len: nat, now: i64) -> bool {
        *self == *req
    }

    /// A lookup finds the status with the request's id.
    open spec fn spec_finds(&self, req: &StatusModel) -> bool {
        self.id == req.id
    }

    /// A listing returns every status.
    open spec fn spec_matches(&self, req: &StatusModel) -> bool {
        true
    }

    /// A listing is never paged.
    open spec fn paging() -> Paging {
        Paging::Unpaged
    }

    open spec fn spec_missing_id_message() -> Seq<char> {
        "Invalid mock update id"@
    }

    open spec fn spec_patched(&self, req: &StatusModel, now: i64) -> Self {
        spec_apply_update(*self, *req)
    }

    fn record_id(&self) -> (id: i32) {
        self.id
    }

    fn request_id(req: &StatusModel) -> (id: Option<i32>) {
        Some(req.id)
    }

    fn created(req: &StatusModel, len: usize, now: i64) -> (r: Self) {
        req.duplicate()
    }

    fn finds(&self, req: &StatusModel) -> (b: bool) {
        self.id == req.id
    }

    fn matches(&self, req: &StatusModel) -> (b: bool) {
        true
    }

    fn listing_paging() -> (p: Paging) {
        Paging::Unpaged
    }

    fn missing_id_message() -> (m: String) {
        String::from_str("Invalid mock update id")
    }

    fn patched(&self, req: &StatusModel, now: i64) -> (r: Self) {
        self.apply_update(req)
    }

    fn duplicate(&self) -> (r: Self) {
        StatusModel::duplicate(self)
    }

    proof fn lemma_patch_keeps_key(&self, req: &StatusModel, now: i64) {
    }
}

} // verus!
