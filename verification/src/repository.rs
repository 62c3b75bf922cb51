use vstd::prelude::*;

use crate::response::Response;

verus! {

/// How an in-memory table pages a listing.
#[derive(Debug, Clone, Copy, PartialEq, Eq, Structural)]
pub enum Paging {
    /// Only the limit applies: the first `limit` records are kept.
    LimitOnly,
    /// The offset skips records first, then the limit keeps the first ones
    /// of the rest.
    OffsetThenLimit,
    /// The limit keeps the first records first, then the offset skips some
    /// of those when it is below their number (else it is ignored).
    LimitThenOffset,
    /// Neither the offset nor the limit applies.
    Unpaged,
}

/// A record of a table kept in memory: it has an id, and the table's own
/// rules say which records a lookup finds, which a listing keeps and how it
/// pages, and what an update changes.
pub trait Record: Sized {
    /// The requests on this table.
    type Request;

    spec fn key(&self) -> i32;

    /// The id a request names, if any.
    spec fn request_key(req: &Self::Request) -> Option<i32>;

    /// Whether a lookup with `req` finds this record.
    spec fn spec_finds(&self, req: &Self::Request) -> bool;

    /// Whether this record is the one an insert of `req` creates when the
    /// table holds `len` records, at time `now`.
    spec fn spec_created(&self, req: &Self::Request, len: nat, now: i64) -> bool;

    /// Whether a listing request keeps this record.
    spec fn spec_matches(&self, req: &Self::Request) -> bool;

    /// This record after an update request at time `now`.
    spec fn spec_patched(&self, req: &Self::Request, now: i64) -> Self;

    /// How the table pages a listing.
    spec fn paging() -> Paging;

    /// The message an update without an id is refused with.
    spec fn spec_missing_id_message() -> Seq<char>;

    fn record_id(&self) -> (id: i32)
        ensures
            id == self.key(),
    ;

    fn request_id(req: &Self::Request) -> (id: Option<i32>)
        ensures
            id == Self::request_key(req),
    ;

    fn finds(&self, req: &Self::Request) -> (b: bool)
        ensures
            b == self.spec_finds(req),
    ;

    fn created(req: &Self::Request, len: usize, now: i64) -> (r: Self)
        requires
            len < 2147483647,
        ensures
            r.spec_created(req, len as nat, now),
    ;

    fn matches(&self, req: &Self::Request) -> (b: bool)
        ensures
            b == self.spec_matches(req),
    ;

    fn patched(&self, req: &Self::Request, now: i64) -> (r: Self)
        ensures
            r == self.spec_patched(req, now),
    ;

    fn listing_paging() -> (p: Paging)
        ensures
            p == Self::paging(),
    ;

    fn missing_id_message() -> (m: String)
        ensures
            m@ == Self::spec_missing_id_message(),
    ;

    fn duplicate(&self) -> (r: Self)
        ensures
            r == *self,
    ;

    /// An update never changes a record's id.
    proof fn lemma_patch_keeps_key(&self, req: &Self::Request, now: i64)
        ensures
            self.spec_patched(req, now).key() == self.key(),
    ;
}

/// Whether `i` is the first position in `s` holding a record with id `id`.
pub open spec fn is_first_with_key<T: Record>(s: Seq<T>, id: i32, i: int) -> bool {
    &&& 0 <= i < s.len()
    &&& s[i].key() == id
    &&& forall|j: int| 0 <= j < i ==> s[j].key() != id
}

pub open spec fn has_key<T: Record>(s: Seq<T>, id: i32) -> bool {
    exists|i: int| 0 <= i < s.len() && s[i].key() == id
}

/// The records of `s` that `req` selects, in order.
pub open spec fn matching<T: Record>(s: Seq<T>, req: T::Request) -> Seq<T>
    decreases s.len(),
{
    if s.len() == 0 {
        Seq::empty()
    } else {
        let rest = matching(s.drop_last(), req);
        if s.last().spec_matches(&req) {
            rest.push(s.last())
        } else {
            rest
        }
    }
}

/// A listing keeps exactly the records the request selects: each record it
/// keeps is a stored record the request selects, and every such stored record
/// is kept.
pub proof fn lemma_matching_kept<T: Record>(s: Seq<T>, req: T::Request)
    ensures
        forall|k: int| 0 <= k < matching(s, req).len() ==> matching(s, req)[k].spec_matches(&req) && s.contains(matching(s, req)[k]),
        forall|i: int| 0 <= i < s.len() && s[i].spec_matches(&req) ==> matching(s, req).contains(s[i]),
        matching(s, req).len() <= s.len(),
    decreases s.len(),
{
    if s.len() > 0 {
        let t = s.drop_last();
        lemma_matching_kept(t, req);
        let r = matching(t, req);
        assert forall|k: int| 0 <= k < matching(s, req).len() implies matching(s, req)[k].spec_matches(&req) && s.contains(matching(s, req)[k]) by {
            if k < r.len() {
                assert(matching(s, req)[k] == r[k]);
                let j = choose|j: int| 0 <= j < t.len() && t[j] == r[k];
                assert(s[j] == t[j]);
            } else {
                assert(s[s.len() - 1] == s.last());
            }
        }
        assert forall|i: int| 0 <= i < s.len() && s[i].spec_matches(&req) implies matching(s, req).contains(s[i]) by {
            if i < s.len() - 1 {
                assert(t[i] == s[i]);
                let j = choose|j: int| 0 <= j < r.len() && r[j] == t[i];
                assert(matching(s, req)[j] == r[j]);
            } else {
                assert(matching(s, req)[matching(s, req).len() - 1] == s.last());
            }
        }
    }
}

/// The first `limit` records of `s` (all of them without a limit).
pub open spec fn take_limit<T>(s: Seq<T>, limit: Option<u64>) -> Seq<T> {
    match limit {
        Some(l) => if l < s.len() {
            s.take(l as int)
        } else {
            s
        },
        None => s,
    }
}

/// The records of `s` after the first `offset` (none when the offset is not
/// below their number).
pub open spec fn skip_offset<T>(s: Seq<T>, offset: Option<u64>) -> Seq<T> {
    match offset {
        Some(o) => if o < s.len() {
            s.skip(o as int)
        } else {
            Seq::empty()
        },
        None => s,
    }
}

/// The records of `s` after the first `offset`, when the offset is below
/// their number; otherwise all of them.
pub open spec fn skip_within<T>(s: Seq<T>, offset: Option<u64>) -> Seq<T> {
    match offset {
        Some(o) => if o < s.len() {
            s.skip(o as int)
        } else {
            s
        },
        None => s,
    }
}

/// The page of `s` a listing with this offset and limit gives.
pub open spec fn page_by<T>(paging: Paging, s: Seq<T>, offset: Option<u64>, limit: Option<u64>) -> Seq<T> {
    match paging {
        Paging::LimitOnly => take_limit(s, limit),
        Paging::OffsetThenLimit => take_limit(skip_offset(s, offset), limit),
        Paging::LimitThenOffset => skip_within(take_limit(s, limit), offset),
        Paging::Unpaged => s,
    }
}

/// Whether `i` is the first position in `s` of a record a lookup with `req`
/// finds.
pub open spec fn is_first_found<T: Record>(s: Seq<T>, req: T::Request, i: int) -> bool {
    &&& 0 <= i < s.len()
    &&& s[i].spec_finds(&req)
    &&& forall|j: int| 0 <= j < i ==> !s[j].spec_finds(&req)
}

pub open spec fn any_found<T: Record>(s: Seq<T>, req: T::Request) -> bool {
    exists|i: int| 0 <= i < s.len() && s[i].spec_finds(&req)
}

/// Whether `q` is a lookup by id `id`: it finds exactly the records with
/// that id.
pub open spec fn looks_up_id<T: Record>(q: T::Request, id: i32) -> bool {
    forall|m: T| #[trigger] m.spec_finds(&q) <==> m.key() == id
}

/// The records of `s` whose id is not `id`, in order.
pub open spec fn without_key<T: Record>(s: Seq<T>, id: i32) -> Seq<T>
    decreases s.len(),
{
    if s.len() == 0 {
        Seq::empty()
    } else {
        let rest = without_key(s.drop_last(), id);
        if s.last().key() != id {
            rest.push(s.last())
        } else {
            rest
        }
    }
}

/// A table kept in memory, in insertion order; it answers requests the way
/// the database does.
pub struct MockRepo<T> {
    pub data: Vec<T>,
}

impl<T: Record> MockRepo<T> {
    pub fn new() -> (res: Self)
        ensures
            res.data@ == Seq::<T>::empty(),
    {
        MockRepo { data: Vec::new() }
    }

    /// Adds a record as it is at the end of the table and hands back a copy
    /// of it.
    pub fn store(&mut self, record: T) -> (res: T)
        ensures
            final(self).data@ == old(self).data@.push(record),
            res == record,
    {
        let copy = record.duplicate();
        self.data.push(record);
        copy
    }

    /// Inserts what a request asks at time `now`: the record the table's own
    /// rule creates from it (its id by the table's rule, the other fields
    /// from the request or their defaults) is added at the end of the table
    /// and handed back. The table must hold fewer than 2^31 - 1 records.
    pub fn insert(&mut self, req: &T::Request, now: i64) -> (res: T)
        requires
            old(self).data@.len() < 2147483647,
        ensures
            final(self).data@ == old(self).data@.push(res),
            res.spec_created(req, old(self).data@.len(), now),
    {
        let record = T::created(req, self.data.len(), now);
        let copy = record.duplicate();
        self.data.push(record);
        copy
    }

    /// The first record a lookup with `req` finds, if any.
    pub fn select(&self, req: &T::Request) -> (res: Option<T>)
        ensures
            res is None <==> !any_found(self.data@, *req),
            res matches Some(r) ==> exists|i: int| is_first_found(self.data@, *req, i) && r == self.data@[i],
    {
        let mut i: usize = 0;
        while i < self.data.len()
            invariant
                i <= self.data@.len(),
                forall|j: int| 0 <= j < i ==> !self.data@[j].spec_finds(req),
            decreases self.data@.len() - i,
        {
            if self.data[i].finds(req) {
                assert(is_first_found(self.data@, *req, i as int));
                return Some(self.data[i].duplicate());
            }
            i = i + 1;
        }
        None
    }

    /// The records `req` keeps, in table order, paged by the table's own
    /// rule with `offset` and `limit`.
    pub fn select_many(&self, req: &T::Request, offset: Option<u64>, limit: Option<u64>) -> (res:
        Vec<T>)
        ensures
            res@ == page_by(T::paging(), matching(self.data@, *req), offset, limit),
    {
        let mut selected: Vec<T> = Vec::new();
        let mut i: usize = 0;
        while i < self.data.len()
            invariant
                i <= self.data@.len(),
                selected@ == matching(self.data@.take(i as int), *req),
            decreases self.data@.len() - i,
        {
            assert(self.data@.take(i + 1).drop_last() =~= self.data@.take(i as int));
            if self.data[i].matches(req) {
                selected.push(self.data[i].duplicate());
            }
            i = i + 1;
        }
        assert(self.data@.take(self.data@.len() as int) =~= self.data@);
        let ghost all = selected@;
        let n = selected.len();
        let lim: usize = match limit {
            Some(l) => if (l as u128) < (n as u128) {
                l as usize
            } else {
                n
            },
            None => n,
        };
        let skip: usize = match offset {
            Some(o) => if (o as u128) < (n as u128) {
                o as usize
            } else {
                n
            },
            None => 0,
        };
        let paging = T::listing_paging();
        let (start, end): (usize, usize) = match paging {
            Paging::LimitOnly => (0, lim),
            Paging::OffsetThenLimit => {
                let rest = n - skip;
                let keep: usize = match limit {
                    Some(l) => if (l as u128) < (rest as u128) {
                        l as usize
                    } else {
                        rest
                    },
                    None => rest,
                };
                (skip, skip + keep)
            },
            Paging::LimitThenOffset => {
                let first: usize = match offset {
                    Some(o) => if (o as u128) < (lim as u128) {
                        o as usize
                    } else {
                        0
                    },
                    None => 0,
                };
                (first, lim)
            },
            Paging::Unpaged => (0, n),
        };
        let mut paged: Vec<T> = Vec::new();
        let mut k: usize = start;
        while k < end
            invariant
                start <= k <= end,
                end <= selected@.len(),
                selected@ == all,
                paged@ =~= all.subrange(start as int, k as int),
            decreases end - k,
        {
            paged.push(selected[k].duplicate());
            k = k + 1;
        }
        proof {
            let s = all;
            match paging {
                Paging::LimitOnly => {
                    assert(s.subrange(0, lim as int) =~= take_limit(s, limit));
                },
                Paging::OffsetThenLimit => {
                    assert(s.subrange(start as int, end as int) =~= take_limit(skip_offset(s, offset), limit));
                },
                Paging::LimitThenOffset => {
                    assert(s.subrange(start as int, end as int) =~= skip_within(take_limit(s, limit), offset));
                },
                Paging::Unpaged => {
                    assert(s.subrange(0, n as int) =~= s);
                },
            }
        }
        paged
    }

    /// Changes the first record with the request's id; a request without an
    /// id, or naming no record, is refused.
    pub fn update(&mut self, req: &T::Request, now: i64) -> (res: Result<T, Response>)
        ensures
            T::request_key(req) is None ==> (res matches Err(r) && r.code == 404 && r.message@
                == T::spec_missing_id_message() && final(self).data@ == old(self).data@),
            forall|id: i32|
                T::request_key(req) == Some(id) && !has_key(old(self).data@, id) ==> (
                res matches Err(r) && r.code == 404 && r.message@ == "Invalid mock update id"@
                && final(self).data@ == old(self).data@),
            forall|id: i32|
                T::request_key(req) == Some(id) && has_key(old(self).data@, id) ==> exists|i: int|
                    is_first_with_key(old(self).data@, id, i) && final(self).data@ == old(
                        self,
                    ).data@.update(i, old(self).data@[i].spec_patched(req, now)) && res == Ok::<
                        T,
                        Response,
                    >(old(self).data@[i].spec_patched(req, now)),
    {
        let rid = T::request_id(req);
        let id = match rid {
            None => {
                return Err(Response::not_found(T::missing_id_message()));
            },
            Some(id) => id,
        };
        assert(T::request_key(req) == Some(id));
        let mut i: usize = 0;
        while i < self.data.len()
            invariant
                i <= self.data@.len(),
                self.data@ == old(self).data@,
                T::request_key(req) == Some(id),
                forall|j: int| 0 <= j < i ==> self.data@[j].key() != id,
            decreases self.data@.len() - i,
        {
            if self.data[i].record_id() == id {
                assert(is_first_with_key(self.data@, id, i as int));
                let changed = self.data[i].patched(req, now);
                let copy = changed.duplicate();
                self.data.set(i, changed);
                assert(is_first_with_key(old(self).data@, id, i as int));
                assert(old(self).data@[i as int].key() == id);
                assert(has_key(old(self).data@, id));
                assert(self.data@ == old(self).data@.update(
                    i as int,
                    old(self).data@[i as int].spec_patched(req, now),
                ));
                return Ok(copy);
            }
            i = i + 1;
        }
        Err(Response::not_found(String::from_str("Invalid mock update id")))
    }

    /// Removes every record with the request's id and says how many there
    /// were; a request without an id is refused.
    pub fn delete(&mut self, id: Option<i32>) -> (res: Result<u64, Response>)
        ensures
            match id {
                None => res matches Err(r) && r.code == 404 && r.message@ == "Invalid mock delete id"@
                    && final(self).data@ == old(self).data@,
                Some(k) => final(self).data@ == without_key(old(self).data@, k) && res
                    == Ok::<u64, Response>((old(self).data@.len() - final(self).data@.len()) as u64),
            },
    {
        let k = match id {
            None => {
                return Err(Response::not_found(String::from_str("Invalid mock delete id")));
            },
            Some(k) => k,
        };
        let ghost before = self.data@;
        let mut kept: Vec<T> = Vec::new();
        let mut i: usize = 0;
        while i < self.data.len()
            invariant
                i <= self.data@.len(),
                self.data@ == before,
                kept@ == without_key(before.take(i as int), k),
                kept@.len() <= i,
            decreases self.data@.len() - i,
        {
            assert(before.take(i + 1).drop_last() =~= before.take(i as int));
            if self.data[i].record_id() != k {
                kept.push(self.data[i].duplicate());
            }
            i = i + 1;
        }
        assert(before.take(before.len() as int) =~= before);
        let removed = self.data.len() - kept.len();
        self.data = kept;
        Ok(removed as u64)
    }
}

/// How many records of `s` have id `id`.
pub open spec fn count_key<T: Record>(s: Seq<T>, id: i32) -> nat
    decreases s.len(),
{
    if s.len() == 0 {
        0
    } else {
        count_key(s.drop_last(), id) + (if s.last().key() == id { 1nat } else { 0nat })
    }
}

/// A record inserted under an id no stored record has is what a lookup by
/// that id then finds.
pub proof fn lemma_select_finds_inserted<T: Record>(s: Seq<T>, r: T, q: T::Request)
    requires
        !has_key(s, r.key()),
        looks_up_id::<T>(q, r.key()),
    ensures
        any_found(s.push(r), q),
        is_first_found(s.push(r), q, s.len() as int),
        forall|i: int| is_first_found(s.push(r), q, i) ==> s.push(r)[i] == r,
{
    let t = s.push(r);
    assert(t[s.len() as int] == r);
    assert(t[s.len() as int].spec_finds(&q));
    assert forall|j: int| 0 <= j < s.len() implies !t[j].spec_finds(&q) by {
        assert(t[j] == s[j]);
        if t[j].spec_finds(&q) {
            assert(s[j].key() == r.key());
        }
    }
    assert forall|i: int| is_first_found(t, q, i) implies t[i] == r by {
        if i < s.len() {
            assert(!t[i].spec_finds(&q));
        }
    }
}

/// After a deletion no record with the deleted id is left, every other
/// record is kept, and the deletion removed as many records as had that id.
pub proof fn lemma_delete_removes_exactly<T: Record>(s: Seq<T>, id: i32)
    ensures
        !has_key(without_key(s, id), id),
        forall|other: i32| other != id ==> (has_key(without_key(s, id), other) == has_key(s, other)),
        s.len() - without_key(s, id).len() == count_key(s, id),
    decreases s.len(),
{
    if s.len() > 0 {
        let init = s.drop_last();
        let last = s.last();
        lemma_delete_removes_exactly(init, id);
        let rest = without_key(init, id);
        let w = without_key(s, id);
        assert(last.key() != id ==> w == rest.push(last));
        assert(last.key() == id ==> w == rest);
        assert forall|other: i32| other != id implies (has_key(w, other) == has_key(s, other)) by {
            if has_key(s, other) {
                let i = choose|i: int| 0 <= i < s.len() && s[i].key() == other;
                if i < init.len() {
                    assert(init[i] == s[i]);
                    assert(has_key(init, other));
                    assert(has_key(rest, other));
                    let j = choose|j: int| 0 <= j < rest.len() && rest[j].key() == other;
                    if last.key() != id {
                        assert(w[j] == rest[j]);
                    }
                    assert(w[j].key() == other);
                } else {
                    assert(last == s[i]);
                    assert(w[rest.len() as int] == last);
                }
            }
            if has_key(w, other) {
                let j = choose|j: int| 0 <= j < w.len() && w[j].key() == other;
                if j < rest.len() {
                    assert(w[j] == rest[j]);
                    assert(has_key(rest, other));
                    assert(has_key(init, other));
                    let i = choose|i: int| 0 <= i < init.len() && init[i].key() == other;
                    assert(s[i] == init[i]);
                } else {
                    assert(w[j] == last);
                    assert(s[s.len() - 1] == last);
                }
            }
        }
        if has_key(w, id) {
            let j = choose|j: int| 0 <= j < w.len() && w[j].key() == id;
            if j < rest.len() {
                assert(w[j] == rest[j]);
            } else {
                assert(w[j] == last);
            }
        }
    }
}

/// What an update writes is what a lookup by its id then finds: when the
/// update changed the first record with id `id` (at position `i`), a lookup
/// by `id` finds the changed record at that position. The table keeps its
/// length.
pub proof fn lemma_select_after_update<T: Record>(
    s: Seq<T>,
    req: T::Request,
    now: i64,
    id: i32,
    i: int,
    q: T::Request,
)
    requires
        is_first_with_key(s, id, i),
        looks_up_id::<T>(q, id),
    ensures
        any_found(s.update(i, s[i].spec_patched(&req, now)), q),
        s.update(i, s[i].spec_patched(&req, now)).len() == s.len(),
        forall|j: int|
            is_first_found(s.update(i, s[i].spec_patched(&req, now)), q, j) ==> j == i && s.update(
                i,
                s[i].spec_patched(&req, now),
            )[j] == s[i].spec_patched(&req, now),
{
    let p = s[i].spec_patched(&req, now);
    let t = s.update(i, p);
    s[i].lemma_patch_keeps_key(&req, now);
    assert(t[i] == p);
    assert(t[i].spec_finds(&q));
    assert forall|j: int| is_first_found(t, q, j) implies j == i && t[j] == p by {
        if j < i {
            assert(t[j] == s[j]);
            assert(s[j].key() != id);
        } else if j > i {
            assert(!t[i].spec_finds(&q));
        }
    }
}

/// A page is one window of the records: without options it is all of them;
/// a limit keeps the first records up to the limit; an offset (applied
/// before the limit) starts the window after that many records, and one past
/// the end leaves nothing; an offset applied after the limit only applies
/// within the limited records, and is ignored when it is not below their
/// number.
pub proof fn lemma_page_is_a_window<T>(paging: Paging, s: Seq<T>, offset: Option<u64>, limit: Option<u64>)
    ensures
        ({
            let kept: int = match limit {
                Some(l) => if l < s.len() { l as int } else { s.len() as int },
                None => s.len() as int,
            };
            let o: int = match offset {
                Some(v) => v as int,
                None => 0,
            };
            match paging {
                Paging::Unpaged => page_by(paging, s, offset, limit) == s,
                Paging::LimitOnly => page_by(paging, s, offset, limit) == s.subrange(0, kept),
                Paging::OffsetThenLimit => if o < s.len() {
                    page_by(paging, s, offset, limit) == s.subrange(
                        o,
                        o + match limit {
                            Some(l) => if l < s.len() - o { l as int } else { s.len() - o },
                            None => s.len() - o,
                        },
                    )
                } else {
                    page_by(paging, s, offset, limit).len() == 0
                },
                Paging::LimitThenOffset => if o < kept {
                    page_by(paging, s, offset, limit) == s.subrange(o, kept)
                } else {
                    page_by(paging, s, offset, limit) == s.subrange(0, kept)
                },
            }
        }),
{
    assert(s.subrange(0, s.len() as int) =~= s);
    match offset {
        Some(v) => {
            if (v as int) < s.len() {
                assert(s.skip(v as int).subrange(0, s.skip(v as int).len() as int) =~= s.skip(v as int));
            }
        },
        None => {},
    }
    match paging {
        Paging::OffsetThenLimit => {
            let t = skip_offset(s, offset);
            match offset {
                Some(v) => {
                    if (v as int) < s.len() {
                        assert(t.take(match limit { Some(l) => if l < t.len() { l as int } else { t.len() as int }, None => t.len() as int }) =~= s.subrange(
                            v as int,
                            v as int + match limit { Some(l) => if l < s.len() - v { l as int } else { s.len() - v }, None => s.len() - v },
                        ));
                    }
                },
                None => {
                    assert(t.take(match limit { Some(l) => if l < t.len() { l as int } else { t.len() as int }, None => t.len() as int }) =~= s.subrange(
                        0,
                        match limit { Some(l) => if l < s.len() { l as int } else { s.len() as int }, None => s.len() as int },
                    ));
                },
            }
        },
        Paging::LimitThenOffset => {
            let t = take_limit(s, limit);
            assert(t =~= s.subrange(0, t.len() as int));
            match offset {
                Some(v) => {
                    if (v as int) < t.len() {
                        assert(t.skip(v as int) =~= s.subrange(v as int, t.len() as int));
                    }
                },
                None => {},
            }
        },
        _ => {},
    }
}

/// A listing never returns more than the records the request keeps, nor,
/// where the table pages by its limit, more than that limit.
pub proof fn lemma_page_bounded<T>(paging: Paging, s: Seq<T>, offset: Option<u64>, limit: Option<u64>)
    ensures
        page_by(paging, s, offset, limit).len() <= s.len(),
        paging != Paging::Unpaged ==> (limit matches Some(l) ==> page_by(paging, s, offset, limit).len() <= l),
{
}


} // verus!
