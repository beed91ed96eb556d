use vstd::prelude::*;
use crate::auth::occurs_at;

verus! {

/// One persisted row per uploaded asset.
#[derive(Clone, Debug)]
pub struct MediaRecord {
    pub id: i32,
    pub user_id: i32,
    pub media_id: String,
    pub media_compressed_id: String,
    pub status: String,
}

/// The mathematical value of a `MediaRecord`.
pub struct RecordView {
    pub id: int,
    pub user_id: int,
    pub media_id: Seq<char>,
    pub media_compressed_id: Seq<char>,
    pub status: Seq<char>,
}

impl View for MediaRecord {
    type V = RecordView;

    open spec fn view(&self) -> RecordView {
        RecordView {
            id: self.id as int,
            user_id: self.user_id as int,
            media_id: self.media_id@,
            media_compressed_id: self.media_compressed_id@,
            status: self.status@,
        }
    }
}

impl RecordView {
    /// The same record with its status replaced.
    pub open spec fn with_status(self, status: Seq<char>) -> RecordView {
        RecordView { status: status, ..self }
    }
}

/// Why a store operation did not take place.
#[derive(Clone, Copy, Debug, PartialEq, Eq, Structural)]
pub enum StoreError {
    /// No record's media id contains the one asked for.
    NotFound,
    /// The next primary key would not fit in an `i32`.
    IdsExhausted,
}

/// `needle` occurs somewhere in `hay` (an empty needle occurs everywhere).
pub open spec fn contains_seq(hay: Seq<char>, needle: Seq<char>) -> bool {
    exists|i: int| occurs_at(hay, needle, i)
}

/// The record answers a lookup by `media_id`: its own media id contains it.
pub open spec fn matches_media_id(r: RecordView, media_id: Seq<char>) -> bool {
    contains_seq(r.media_id, media_id)
}

/// `i` is the first record of `rs` that answers a lookup by `media_id`.
pub open spec fn first_match(rs: Seq<RecordView>, media_id: Seq<char>, i: int) -> bool {
    0 <= i < rs.len() && matches_media_id(rs[i], media_id) && forall|j: int|
        0 <= j < i ==> !matches_media_id(#[trigger] rs[j], media_id)
}

/// No record of `rs` answers a lookup by `media_id`.
pub open spec fn no_match(rs: Seq<RecordView>, media_id: Seq<char>) -> bool {
    forall|j: int| 0 <= j < rs.len() ==> !matches_media_id(#[trigger] rs[j], media_id)
}

/// The index of the record that a lookup by `media_id` finds, if any.
pub open spec fn lookup(rs: Seq<RecordView>, media_id: Seq<char>) -> Option<int> {
    if no_match(rs, media_id) {
        None
    } else {
        Some(choose|i: int| first_match(rs, media_id, i))
    }
}

proof fn lemma_first_match_from(rs: Seq<RecordView>, media_id: Seq<char>, k: int)
    requires
        0 <= k <= rs.len(),
        forall|j: int| 0 <= j < k ==> !matches_media_id(#[trigger] rs[j], media_id),
        exists|j: int| k <= j < rs.len() && matches_media_id(#[trigger] rs[j], media_id),
    ensures
        exists|i: int| first_match(rs, media_id, i),
    decreases rs.len() - k,
{
    if matches_media_id(rs[k], media_id) {
        assert(first_match(rs, media_id, k));
    } else {
        lemma_first_match_from(rs, media_id, k + 1);
    }
}

/// The index a lookup finds is the first matching record.
pub proof fn lemma_lookup_is_first(rs: Seq<RecordView>, media_id: Seq<char>)
    ensures
        lookup(rs, media_id) matches Some(i) ==> first_match(rs, media_id, i),
{
    if !no_match(rs, media_id) {
        lemma_first_match_from(rs, media_id, 0);
    }
}

/// The records after setting the status of the one a lookup by `media_id`
/// finds; unchanged when none matches.
pub open spec fn set_status(rs: Seq<RecordView>, media_id: Seq<char>, status: Seq<char>) -> Seq<
    RecordView,
> {
    match lookup(rs, media_id) {
        Some(i) => rs.update(i, rs[i].with_status(status)),
        None => rs,
    }
}

/// Number of pages of `page_size` records needed for `n` records.
pub open spec fn page_count(n: int, page_size: int) -> int {
    n / page_size + if n % page_size == 0 {
        0int
    } else {
        1int
    }
}

/// The records of page `page` (counted from 1) of `page_size` records each.
pub open spec fn page_of(rs: Seq<RecordView>, page: int, page_size: int) -> Seq<RecordView> {
    let start = (page - 1) * page_size;
    if start >= rs.len() {
        Seq::empty()
    } else if start + page_size >= rs.len() {
        rs.subrange(start, rs.len() as int)
    } else {
        rs.subrange(start, start + page_size)
    }
}

/// The id that the next created record receives.
pub open spec fn next_id(rs: Seq<RecordView>) -> int {
    if rs.len() == 0 {
        1
    } else {
        rs.last().id + 1
    }
}

impl MediaRecord {
    /// A copy of the record, field by field.
    pub fn duplicate(&self) -> (r: MediaRecord)
        ensures
            r@ == self@,
    {
        MediaRecord {
            id: self.id,
            user_id: self.user_id,
            media_id: self.media_id.clone(),
            media_compressed_id: self.media_compressed_id.clone(),
            status: self.status.clone(),
        }
    }
}

/// The persisted media records, in ascending id order.
pub struct MediaTable {
    pub records: Vec<MediaRecord>,
}

impl View for MediaTable {
    type V = Seq<RecordView>;

    open spec fn view(&self) -> Seq<RecordView> {
        self.records@.map_values(|r: MediaRecord| r@)
    }
}

impl MediaTable {
    /// Ids are positive and strictly ascending.
    pub open spec fn wf(&self) -> bool {
        &&& forall|i: int| 0 <= i < self@.len() ==> 1 <= #[trigger] self@[i].id
        &&& forall|i: int, j: int|
            0 <= i < j < self@.len() ==> #[trigger] self@[i].id < #[trigger] self@[j].id
    }

    pub fn new() -> (r: MediaTable)
        ensures
            r.wf(),
            r@.len() == 0,
    {
        let r = MediaTable { records: Vec::new() };
        assert(r@ =~= Seq::<RecordView>::empty());
        r
    }
}

/// `needle` occurs in `hay` at index `i`.
fn occurs_at_exec(hay: &str, hay_len: usize, needle: &str, needle_len: usize, i: usize) -> (r: bool)
    requires
        hay_len == hay@.len(),
        needle_len == needle@.len(),
        i + needle_len <= hay_len,
    ensures
        r == occurs_at(hay@, needle@, i as int),
{
    let mut k: usize = 0;
    while k < needle_len
        invariant
            hay_len == hay@.len(),
            needle_len == needle@.len(),
            i + needle_len <= hay_len,
            k <= needle_len,
            forall|m: int| 0 <= m < k ==> hay@[i + m] == needle@[m],
        decreases needle_len - k,
    {
        if hay.get_char(i + k) != needle.get_char(k) {
            proof {
                let sub = hay@.subrange(i as int, i + needle_len);
                assert(sub[k as int] != needle@[k as int]);
            }
            return false;
        }
        k = k + 1;
    }
    assert(hay@.subrange(i as int, i + needle_len) =~= needle@);
    true
}

/// Whether `needle` occurs somewhere in `hay`.
pub fn contains_str(hay: &str, needle: &str) -> (r: bool)
    ensures
        r == contains_seq(hay@, needle@),
{
    let hay_len = hay.unicode_len();
    let needle_len = needle.unicode_len();
    if needle_len > hay_len {
        assert forall|i: int| !occurs_at(hay@, needle@, i) by {}
        return false;
    }
    let limit = hay_len - needle_len;
    let mut i: usize = 0;
    while i < limit
        invariant
            hay_len == hay@.len(),
            needle_len == needle@.len(),
            limit == hay_len - needle_len,
            i <= limit,
            forall|j: int| 0 <= j < i ==> !occurs_at(hay@, needle@, j),
        decreases limit - i,
    {
        if occurs_at_exec(hay, hay_len, needle, needle_len, i) {
            return true;
        }
        i = i + 1;
    }
    if occurs_at_exec(hay, hay_len, needle, needle_len, limit) {
        return true;
    }
    assert forall|j: int| !occurs_at(hay@, needle@, j) by {
        if 0 <= j && j > limit {
            assert(j + needle_len > hay_len);
        }
    }
    false
}

/// Index of the record that a lookup by `media_id` finds.
fn find_index(db: &MediaTable, media_id: &str) -> (r: Option<usize>)
    ensures
        r is None <==> lookup(db@, media_id@) is None,
        r is Some ==> lookup(db@, media_id@) == Some(r.unwrap() as int) && first_match(
            db@,
            media_id@,
            r.unwrap() as int,
        ),
{
    let mut i: usize = 0;
    while i < db.records.len()
        invariant
            i <= db@.len(),
            db@.len() == db.records@.len(),
            forall|j: int| 0 <= j < i ==> !matches_media_id(#[trigger] db@[j], media_id@),
        decreases db.records.len() - i,
    {
        if contains_str(db.records[i].media_id.as_str(), media_id) {
            proof {
                assert(first_match(db@, media_id@, i as int));
                let k = choose|k: int| first_match(db@, media_id@, k);
                if k < i {
                    assert(!matches_media_id(db@[k], media_id@));
                }
                if k > i {
                    assert(!matches_media_id(db@[i as int], media_id@));
                }
            }
            return Some(i);
        }
        i = i + 1;
    }
    None
}

/// Writes to the media table.
pub struct Mutation;

/// Reads of the media table.
pub struct Query;

impl Mutation {
    /// Stores a new record under the next id; the given id is ignored.
    pub fn create_post(db: &mut MediaTable, form_data: MediaRecord) -> (r: Result<
        MediaRecord,
        StoreError,
    >)
        requires
            old(db).wf(),
        ensures
            final(db).wf(),
            r is Err <==> next_id(old(db)@) > i32::MAX,
            r is Err ==> r == Err::<MediaRecord, StoreError>(StoreError::IdsExhausted) && final(db)@
                == old(db)@,
            r is Ok ==> r.unwrap()@ == (RecordView { id: next_id(old(db)@), ..form_data@ })
                && final(db)@ == old(db)@.push(r.unwrap()@),
    {
        let n = db.records.len();
        let id: i32 = if n == 0 {
            1
        } else {
            let last = db.records[n - 1].id;
            if last == i32::MAX {
                return Err(StoreError::IdsExhausted);
            }
            last + 1
        };
        proof {
            if n > 0 {
                assert(db@.last() == db@[n - 1]);
            }
            assert forall|k: int| 0 <= k < n implies #[trigger] db@[k].id < id by {
                if k < n - 1 {
                    assert(db@[k].id < db@[n - 1].id);
                }
            }
        }
        let record = MediaRecord {
            id,
            user_id: form_data.user_id,
            media_id: form_data.media_id,
            media_compressed_id: form_data.media_compressed_id,
            status: form_data.status,
        };
        let saved = record.duplicate();
        db.records.push(record);
        assert(db@ =~= old(db)@.push(saved@));
        assert(db@[n as int].id == id);
        Ok(saved)
    }

    /// Sets the status of the first record whose media id contains
    /// `media_id`, and returns that record as updated.
    pub fn update_user_media_by_id(db: &mut MediaTable, media_id: &str, status: String) -> (r:
        Result<MediaRecord, StoreError>)
        requires
            old(db).wf(),
        ensures
            final(db).wf(),
            final(db)@ == set_status(old(db)@, media_id@, status@),
            r is Err <==> lookup(old(db)@, media_id@) is None,
            r is Err ==> r == Err::<MediaRecord, StoreError>(StoreError::NotFound),
            r is Ok ==> r.unwrap()@ == final(db)@[lookup(old(db)@, media_id@).unwrap()],
    {
        match find_index(db, media_id) {
            None => Err(StoreError::NotFound),
            Some(i) => {
                let current = &db.records[i];
                let updated = MediaRecord {
                    id: current.id,
                    user_id: current.user_id,
                    media_id: current.media_id.clone(),
                    media_compressed_id: current.media_compressed_id.clone(),
                    status,
                };
                let result = updated.duplicate();
                db.records.set(i, updated);
                assert(db@ =~= old(db)@.update(i as int, old(db)@[i as int].with_status(status@)));
                assert forall|k: int| 0 <= k < db@.len() implies #[trigger] db@[k].id == old(db)@[k].id by {}
                Ok(result)
            },
        }
    }
}

impl Query {
    /// The first record whose media id contains `media_id`.
    pub fn find_post_by_media_id(db: &MediaTable, media_id: &str) -> (r: Option<MediaRecord>)
        ensures
            r is None <==> lookup(db@, media_id@) is None,
            r is Some ==> r.unwrap()@ == db@[lookup(db@, media_id@).unwrap()],
    {
        match find_index(db, media_id) {
            None => None,
            Some(i) => Some(db.records[i].duplicate()),
        }
    }

    /// The records of page `page` (counted from 1), `posts_per_page` to a
    /// page in ascending id order, and the number of pages.
    pub fn find_posts_in_page(db: &MediaTable, page: u64, posts_per_page: u64) -> (r: (
        Vec<MediaRecord>,
        u64,
    ))
        requires
            page >= 1,
            posts_per_page >= 1,
        ensures
            r.0@.map_values(|x: MediaRecord| x@) == page_of(db@, page as int, posts_per_page as int),
            r.1 == page_count(db@.len() as int, posts_per_page as int),
    {
        let n = db.records.len();
        let count = n as u64;
        let whole = count / posts_per_page;
        let num_pages: u64 = if count % posts_per_page == 0 {
            whole
        } else {
            proof {
                assert(posts_per_page >= 2);
                vstd::arithmetic::div_mod::lemma_div_is_ordered_by_denominator(count as int, 2, posts_per_page as int);
            }
            whole + 1
        };
        proof {
            vstd::arithmetic::mul::lemma_mul_upper_bound((page - 1) as int, u64::MAX as int, posts_per_page as int, u64::MAX as int);
            assert(u64::MAX as int * u64::MAX as int <= u128::MAX) by (nonlinear_arith);
        }
        let start_wide: u128 = ((page - 1) as u128) * (posts_per_page as u128);
        let mut out: Vec<MediaRecord> = Vec::new();
        if start_wide >= n as u128 {
            assert(out@.map_values(|x: MediaRecord| x@) =~= Seq::<RecordView>::empty());
            return (out, num_pages);
        }
        let start = start_wide as usize;
        let end: usize = if ((n - start) as u64) > posts_per_page {
            start + posts_per_page as usize
        } else {
            n
        };
        let mut i = start;
        while i < end
            invariant
                start <= i <= end <= n,
                n == db.records@.len(),
                out@.map_values(|x: MediaRecord| x@) =~= db@.subrange(start as int, i as int),
            decreases end - i,
        {
            let rec = db.records[i].duplicate();
            out.push(rec);
            assert(db@.subrange(start as int, i + 1) =~= db@.subrange(start as int, i as int).push(
                db@[i as int],
            ));
            i = i + 1;
        }
        (out, num_pages)
    }
}

} // verus!
