//! The content-addressed media cache: records keyed by the content identifier
//! of their source URL, also reachable through the queries known to resolve
//! to them.
use vstd::prelude::*;
use crate::hashing::{content_id, content_id_of};
use crate::text::text_eq;

verus! {

/// One cached piece of media.
pub struct CacheRecord {
    /// Content identifier of `source_url`.
    pub id: String,
    /// User queries known to resolve to this media, without repeats.
    pub possible_queries: Vec<String>,
    /// Canonical URL of the media.
    pub source_url: String,
    /// Display title, when it was known at caching time.
    pub title: Option<String>,
    /// Unix timestamp (seconds) of the download.
    pub cached_at: i64,
}

pub struct RecordView {
    pub id: Seq<char>,
    pub queries: Seq<Seq<char>>,
    pub url: Seq<char>,
    pub title: Option<Seq<char>>,
    pub cached_at: i64,
}

pub open spec fn opt_text(t: Option<String>) -> Option<Seq<char>> {
    match t {
        Some(s) => Some(s@),
        None => None,
    }
}

pub open spec fn texts(v: Seq<String>) -> Seq<Seq<char>> {
    v.map_values(|s: String| s@)
}

impl View for CacheRecord {
    type V = RecordView;

    open spec fn view(&self) -> RecordView {
        RecordView {
            id: self.id@,
            queries: texts(self.possible_queries@),
            url: self.source_url@,
            title: opt_text(self.title),
            cached_at: self.cached_at,
        }
    }
}

/// The record that a first successful download of `url` for `query` creates.
pub open spec fn new_record(url: Seq<char>, query: Seq<char>, title: Option<Seq<char>>, at: i64) -> RecordView {
    RecordView { id: content_id_of(url), queries: seq![query], url, title, cached_at: at }
}

/// Index of the first record, from `i` on, whose identifier is `id`.
pub open spec fn id_match_from(recs: Seq<RecordView>, id: Seq<char>, i: int) -> Option<int>
    decreases recs.len() - i,
{
    if i < 0 || i >= recs.len() {
        None
    } else if recs[i].id == id {
        Some(i)
    } else {
        id_match_from(recs, id, i + 1)
    }
}

/// Index of the first record, from `i` on, that lists `q` among its queries.
pub open spec fn query_match_from(recs: Seq<RecordView>, q: Seq<char>, i: int) -> Option<int>
    decreases recs.len() - i,
{
    if i < 0 || i >= recs.len() {
        None
    } else if recs[i].queries.contains(q) {
        Some(i)
    } else {
        query_match_from(recs, q, i + 1)
    }
}

pub open spec fn id_match(recs: Seq<RecordView>, id: Seq<char>) -> Option<int> {
    id_match_from(recs, id, 0)
}

/// Whether media with URL `url` is cached.
pub open spec fn cached(recs: Seq<RecordView>, url: Seq<char>) -> bool {
    id_match(recs, content_id_of(url)) is Some
}

/// The record a query resolves to: the one whose identifier is the query's
/// content identifier, else the first that lists the query.
pub open spec fn lookup_index(recs: Seq<RecordView>, q: Seq<char>) -> Option<int> {
    match id_match(recs, content_id_of(q)) {
        Some(i) => Some(i),
        None => query_match_from(recs, q, 0),
    }
}

/// The records after `q` is linked to the record of `url`: appended to its
/// queries unless already there; nothing changes when `url` is not cached.
pub open spec fn link_spec(recs: Seq<RecordView>, url: Seq<char>, q: Seq<char>) -> Seq<RecordView> {
    match id_match(recs, content_id_of(url)) {
        Some(i) => if recs[i].queries.contains(q) {
            recs
        } else {
            recs.update(i, RecordView { queries: recs[i].queries.push(q), ..recs[i] })
        },
        None => recs,
    }
}

/// Identifiers are derived from URLs, are unique, and no record lists a
/// query twice.
pub open spec fn records_wf(recs: Seq<RecordView>) -> bool {
    &&& forall|i: int| 0 <= i < recs.len() ==> #[trigger] recs[i].id == content_id_of(recs[i].url)
    &&& forall|i: int, j: int|
        0 <= i < recs.len() && 0 <= j < recs.len() && i != j ==> #[trigger] recs[i].id != #[trigger] recs[j].id
    &&& forall|i: int| 0 <= i < recs.len() ==> (#[trigger] recs[i].queries).no_duplicates()
}

pub proof fn lemma_id_match_from(recs: Seq<RecordView>, id: Seq<char>, i: int)
    requires
        0 <= i,
    ensures
        match id_match_from(recs, id, i) {
            Some(k) => i <= k < recs.len() && recs[k].id == id
                && forall|j: int| i <= j < k ==> recs[j].id != id,
            None => forall|j: int| i <= j < recs.len() ==> recs[j].id != id,
        },
    decreases recs.len() - i,
{
    if i < recs.len() && recs[i].id != id {
        lemma_id_match_from(recs, id, i + 1);
    }
}

pub proof fn lemma_query_match_from(recs: Seq<RecordView>, q: Seq<char>, i: int)
    requires
        0 <= i,
    ensures
        match query_match_from(recs, q, i) {
            Some(k) => i <= k < recs.len() && recs[k].queries.contains(q)
                && forall|j: int| i <= j < k ==> !recs[j].queries.contains(q),
            None => forall|j: int| i <= j < recs.len() ==> !recs[j].queries.contains(q),
        },
    decreases recs.len() - i,
{
    if i < recs.len() && !recs[i].queries.contains(q) {
        lemma_query_match_from(recs, q, i + 1);
    }
}

/// Under unique identifiers, the record holding `id` is the match.
pub proof fn lemma_id_match_unique(recs: Seq<RecordView>, id: Seq<char>, k: int)
    requires
        records_wf(recs),
        0 <= k < recs.len(),
        recs[k].id == id,
    ensures
        id_match(recs, id) == Some(k),
{
    lemma_id_match_from(recs, id, 0);
}

/// Linking a query to a cached URL keeps the records well formed and the
/// identifiers in place, keeps every query the record listed, and lists the
/// new one.
pub proof fn lemma_link(recs: Seq<RecordView>, url: Seq<char>, q: Seq<char>)
    requires
        records_wf(recs),
        cached(recs, url),
    ensures
        records_wf(link_spec(recs, url, q)),
        link_spec(recs, url, q).len() == recs.len(),
        forall|j: int| 0 <= j < recs.len() ==> #[trigger] link_spec(recs, url, q)[j].id == recs[j].id,
        id_match(link_spec(recs, url, q), content_id_of(url)) == id_match(recs, content_id_of(url)),
        match id_match(recs, content_id_of(url)) {
            Some(k) => link_spec(recs, url, q)[k].queries.contains(q)
                && forall|x: Seq<char>| recs[k].queries.contains(x) ==> link_spec(recs, url, q)[k].queries.contains(x),
            None => false,
        },
{
    let id = content_id_of(url);
    lemma_id_match_from(recs, id, 0);
    let k = id_match(recs, id)->Some_0;
    let out = link_spec(recs, url, q);
    if !recs[k].queries.contains(q) {
        let qs = recs[k].queries.push(q);
        assert(qs[recs[k].queries.len() as int] == q);
        assert forall|x: Seq<char>| recs[k].queries.contains(x) implies qs.contains(x) by {
            let j = choose|j: int| 0 <= j < recs[k].queries.len() && recs[k].queries[j] == x;
            assert(qs[j] == x);
        }
        assert(out[k].queries == qs);
        assert forall|i: int| 0 <= i < out.len() implies (#[trigger] out[i].queries).no_duplicates() by {
            if i == k {
                assert(recs[k].queries.no_duplicates());
            } else {
                assert(out[i] == recs[i]);
            }
        }
        assert forall|i: int| 0 <= i < out.len() implies #[trigger] out[i].id == content_id_of(out[i].url) by {
            assert(out[i].id == recs[i].id && out[i].url == recs[i].url);
        }
        assert forall|i: int, j: int|
            0 <= i < out.len() && 0 <= j < out.len() && i != j implies #[trigger] out[i].id != #[trigger] out[j].id by {
            assert(out[i].id == recs[i].id && out[j].id == recs[j].id);
        }
    }
    lemma_id_match_unique(out, id, k);
}

/// Committing a URL that is not cached keeps the records well formed, and
/// the new record is the one its identifier finds.
pub proof fn lemma_commit(recs: Seq<RecordView>, url: Seq<char>, q: Seq<char>, title: Option<Seq<char>>, at: i64)
    requires
        records_wf(recs),
        !cached(recs, url),
    ensures
        records_wf(recs.push(new_record(url, q, title, at))),
        id_match(recs.push(new_record(url, q, title, at)), content_id_of(url)) == Some(recs.len() as int),
        forall|j: int| 0 <= j < recs.len() ==> recs[j].id != content_id_of(url),
{
    let id = content_id_of(url);
    let out = recs.push(new_record(url, q, title, at));
    lemma_id_match_from(recs, id, 0);
    let n = recs.len() as int;
    assert(out[n].queries =~= seq![q]);
    assert forall|i: int| 0 <= i < out.len() implies (#[trigger] out[i].queries).no_duplicates() by {
        if i < n {
            assert(out[i] == recs[i]);
        }
    }
    assert forall|i: int| 0 <= i < out.len() implies #[trigger] out[i].id == content_id_of(out[i].url) by {
        if i < n {
            assert(out[i] == recs[i]);
        }
    }
    assert forall|i: int, j: int|
        0 <= i < out.len() && 0 <= j < out.len() && i != j implies #[trigger] out[i].id != #[trigger] out[j].id by {
        if i < n && j < n {
            assert(out[i] == recs[i] && out[j] == recs[j]);
        } else if i < n {
            assert(out[i] == recs[i]);
        } else {
            assert(out[j] == recs[j]);
        }
    }
    lemma_id_match_unique(out, id, n);
}

/// Errors of the cache store.
pub enum CacheError {
    /// A record with the same identifier is already stored.
    DuplicateId,
}

/// The cache store.
pub struct ContentCache {
    records: Vec<CacheRecord>,
}

impl View for ContentCache {
    type V = Seq<RecordView>;

    closed spec fn view(&self) -> Seq<RecordView> {
        self.records@.map_values(|r: CacheRecord| r@)
    }
}

impl ContentCache {
    pub open spec fn wf(&self) -> bool {
        records_wf(self@)
    }

    /// The stored records, in order of storage.
    pub fn records(&self) -> (r: &Vec<CacheRecord>)
        ensures
            r@.map_values(|x: CacheRecord| x@) == self@,
    {
        &self.records
    }

    /// An empty cache.
    pub fn new() -> (r: ContentCache)
        ensures
            r@ == Seq::<RecordView>::empty(),
            r.wf(),
    {
        let r = ContentCache { records: Vec::new() };
        assert(r@ =~= Seq::<RecordView>::empty());
        r
    }

    fn position_of_id(&self, id: &str) -> (r: Option<usize>)
        ensures
            r matches Some(k) ==> id_match(self@, id@) == Some(k as int) && k < self@.len(),
            r is None ==> id_match(self@, id@) is None,
    {
        let mut i: usize = 0;
        while i < self.records.len()
            invariant
                i <= self.records.len(),
                id_match(self@, id@) == id_match_from(self@, id@, i as int),
            decreases self.records.len() - i,
        {
            if text_eq(self.records[i].id.as_str(), id) {
                return Some(i);
            }
            i = i + 1;
        }
        None
    }

    fn lists_query(rec: &CacheRecord, q: &str) -> (r: bool)
        ensures
            r == rec@.queries.contains(q@),
    {
        let mut j: usize = 0;
        while j < rec.possible_queries.len()
            invariant
                j <= rec.possible_queries.len(),
                forall|k: int| 0 <= k < j ==> rec@.queries[k] != q@,
            decreases rec.possible_queries.len() - j,
        {
            if text_eq(rec.possible_queries[j].as_str(), q) {
                assert(rec@.queries[j as int] == q@);
                return true;
            }
            j = j + 1;
        }
        false
    }

    fn position_of_query(&self, q: &str) -> (r: Option<usize>)
        ensures
            r matches Some(k) ==> query_match_from(self@, q@, 0) == Some(k as int) && k < self@.len(),
            r is None ==> query_match_from(self@, q@, 0) is None,
    {
        let mut i: usize = 0;
        while i < self.records.len()
            invariant
                i <= self.records.len(),
                query_match_from(self@, q@, 0) == query_match_from(self@, q@, i as int),
            decreases self.records.len() - i,
        {
            if Self::lists_query(&self.records[i], q) {
                return Some(i);
            }
            i = i + 1;
        }
        None
    }

    /// The record that `query` resolves to: first by identifier, then by the
    /// queries each record lists.
    pub fn lookup(&self, query: &str) -> (r: Option<&CacheRecord>)
        ensures
            match lookup_index(self@, query@) {
                Some(k) => r matches Some(rec) && rec@ == self@[k],
                None => r is None,
            },
    {
        let id = content_id(query);
        match self.position_of_id(id.as_str()) {
            Some(k) => Some(&self.records[k]),
            None => match self.position_of_query(query) {
                Some(k) => Some(&self.records[k]),
                None => None,
            },
        }
    }

    /// Whether media with URL `url` is cached.
    pub fn is_cached(&self, url: &str) -> (r: bool)
        ensures
            r == cached(self@, url@),
    {
        let id = content_id(url);
        self.position_of_id(id.as_str()).is_some()
    }

    /// Stores the record of a first download of `url` for `query`; refused
    /// when `url` is cached already.
    pub fn commit(&mut self, url: &str, query: &str, title: Option<String>, cached_at: i64) -> (r: Result<(), CacheError>)
        requires
            old(self).wf(),
        ensures
            final(self).wf(),
            cached(old(self)@, url@) ==> r is Err && final(self)@ == old(self)@,
            !cached(old(self)@, url@) ==> r is Ok
                && final(self)@ == old(self)@.push(new_record(url@, query@, opt_text(title), cached_at)),
    {
        let id = content_id(url);
        if self.position_of_id(id.as_str()).is_some() {
            return Err(CacheError::DuplicateId);
        }
        let mut queries: Vec<String> = Vec::new();
        queries.push(query.to_owned());
        let rec = CacheRecord {
            id,
            possible_queries: queries,
            source_url: url.to_owned(),
            title,
            cached_at,
        };
        let ghost before = self@;
        proof {
            lemma_id_match_from(before, content_id_of(url@), 0);
            assert(rec@.queries =~= seq![query@]);
        }
        self.records.push(rec);
        assert(self@ =~= before.push(new_record(url@, query@, opt_text(rec.title), cached_at)));
        Ok(())
    }

    /// Adds `query` to the queries of the record of `url`, unless it is listed
    /// there already; does nothing when `url` is not cached.
    pub fn link_query(&mut self, url: &str, query: &str)
        requires
            old(self).wf(),
        ensures
            final(self).wf(),
            final(self)@ == link_spec(old(self)@, url@, query@),
    {
        let id = content_id(url);
        match self.position_of_id(id.as_str()) {
            None => {},
            Some(k) => {
                if !Self::lists_query(&self.records[k], query) {
                    let ghost before = self@;
                    let mut rec = self.records.remove(k);
                    rec.possible_queries.push(query.to_owned());
                    assert(texts(rec.possible_queries@) =~= before[k as int].queries.push(query@));
                    self.records.insert(k, rec);
                    assert(self@ =~= before.update(k as int, RecordView { queries: before[k as int].queries.push(query@), ..before[k as int] }));
                    assert forall|i: int| 0 <= i < self@.len() implies (#[trigger] self@[i].queries).no_duplicates() by {
                        if i == k {
                            assert(before[i].queries.no_duplicates());
                            assert(!before[i].queries.contains(query@));
                        }
                    }
                }
            },
        }
    }
}

} // verus!
