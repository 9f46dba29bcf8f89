//! The download coordinator: at most one download per content identifier in
//! flight, and a cache record committed once a download succeeds. The
//! external fetch itself runs outside: `begin` says whether to start it and
//! how, `complete` takes its outcome.
use vstd::prelude::*;
use crate::cache::{
    cached, id_match, lemma_commit, lemma_id_match_from, lemma_link, lemma_query_match_from, lookup_index,
    query_match_from, link_spec, new_record, opt_text, records_wf, texts, CacheError, ContentCache,
    RecordView,
};
use crate::clock::generate_current_timestamp;
use crate::hashing::{content_id, content_id_of};
use crate::text::text_eq;

verus! {

/// Name of the external fetch tool.
pub const FETCH_PROGRAM: &'static str = "yt-dlp";

/// Format selection handed to the fetch tool.
pub const FETCH_FORMAT: &'static str = "webm[abr>0]/bestaudio/best";

/// Path of the cached file of content identifier `id` under home `home`.
pub open spec fn cached_file_path_spec(home: Seq<char>, id: Seq<char>) -> Seq<char> {
    home + "/songbird_cache/"@ + id
}

/// Arguments of the fetch tool for `url`, writing to `out`.
pub open spec fn fetch_args_spec(url: Seq<char>, out: Seq<char>) -> Seq<Seq<char>> {
    seq![
        "-f"@,
        FETCH_FORMAT@,
        "--no-playlist"@,
        "--ignore-config"@,
        "--no-warnings"@,
        url,
        "-o"@,
        out,
    ]
}

/// Path of the cached file of content identifier `id` under home `home`.
pub fn cached_file_path(home: &str, id: &str) -> (r: String)
    ensures
        r@ == cached_file_path_spec(home@, id@),
{
    let mut p = home.to_owned();
    p.append("/songbird_cache/");
    p.append(id);
    p
}

/// Arguments of the fetch tool for `url`, writing to `out`.
pub fn fetch_args(url: &str, out: &str) -> (r: Vec<String>)
    ensures
        texts(r@) == fetch_args_spec(url@, out@),
{
    let mut v: Vec<String> = Vec::new();
    v.push("-f".to_owned());
    v.push(FETCH_FORMAT.to_owned());
    v.push("--no-playlist".to_owned());
    v.push("--ignore-config".to_owned());
    v.push("--no-warnings".to_owned());
    v.push(url.to_owned());
    v.push("-o".to_owned());
    v.push(out.to_owned());
    assert(texts(v@) =~= fetch_args_spec(url@, out@));
    v
}

/// Content identifiers whose download is under way.
pub struct InFlightSet {
    ids: Vec<String>,
}

impl View for InFlightSet {
    type V = Set<Seq<char>>;

    closed spec fn view(&self) -> Set<Seq<char>> {
        Set::new(|h: Seq<char>| texts(self.ids@).contains(h))
    }
}

impl InFlightSet {
    pub closed spec fn wf(&self) -> bool {
        texts(self.ids@).no_duplicates()
    }

    pub fn new() -> (r: InFlightSet)
        ensures
            r.wf(),
            r@ == Set::<Seq<char>>::empty(),
    {
        let r = InFlightSet { ids: Vec::new() };
        assert(r@ =~= Set::<Seq<char>>::empty());
        r
    }

    fn position(&self, id: &str) -> (r: Option<usize>)
        ensures
            r matches Some(k) ==> k < self.ids@.len() && self.ids@[k as int]@ == id@,
            r is None ==> !self@.contains(id@),
    {
        let mut i: usize = 0;
        while i < self.ids.len()
            invariant
                i <= self.ids.len(),
                forall|j: int| 0 <= j < i ==> self.ids@[j]@ != id@,
            decreases self.ids.len() - i,
        {
            if text_eq(self.ids[i].as_str(), id) {
                return Some(i);
            }
            i = i + 1;
        }
        assert(!texts(self.ids@).contains(id@));
        None
    }

    pub fn contains(&self, id: &str) -> (r: bool)
        ensures
            r == self@.contains(id@),
    {
        match self.position(id) {
            Some(k) => {
                assert(texts(self.ids@)[k as int] == id@);
                true
            },
            None => false,
        }
    }

    /// Adds `id` unless present, in one step; says whether it was added.
    pub fn try_insert(&mut self, id: &str) -> (r: bool)
        requires
            old(self).wf(),
        ensures
            final(self).wf(),
            r == !old(self)@.contains(id@),
            final(self)@ == old(self)@.insert(id@),
    {
        match self.position(id) {
            Some(k) => {
                assert(texts(self.ids@)[k as int] == id@);
                assert(self@ =~= self@.insert(id@));
                false
            },
            None => {
                let ghost before = texts(self.ids@);
                self.ids.push(id.to_owned());
                assert(texts(self.ids@) =~= before.push(id@));
                assert forall|h: Seq<char>| #[trigger] self@.contains(h) == old(self)@.insert(id@).contains(h) by {
                    if before.contains(h) {
                        let j = choose|j: int| 0 <= j < before.len() && before[j] == h;
                        assert(texts(self.ids@)[j] == h);
                    }
                    if h == id@ {
                        assert(texts(self.ids@)[before.len() as int] == h);
                    }
                    if texts(self.ids@).contains(h) && h != id@ {
                        let j = choose|j: int| 0 <= j < texts(self.ids@).len() && texts(self.ids@)[j] == h;
                        assert(before[j] == h);
                    }
                }
                assert(self@ =~= old(self)@.insert(id@));
                true
            },
        }
    }

    /// Removes `id`; says whether it was present.
    pub fn remove(&mut self, id: &str) -> (r: bool)
        requires
            old(self).wf(),
        ensures
            final(self).wf(),
            r == old(self)@.contains(id@),
            final(self)@ == old(self)@.remove(id@),
    {
        match self.position(id) {
            Some(k) => {
                let ghost before = texts(self.ids@);
                assert(before[k as int] == id@);
                self.ids.remove(k);
                assert(texts(self.ids@) =~= before.remove(k as int));
                assert forall|h: Seq<char>| #[trigger] self@.contains(h) == old(self)@.remove(id@).contains(h) by {
                    if texts(self.ids@).contains(h) {
                        let j = choose|j: int| 0 <= j < texts(self.ids@).len() && texts(self.ids@)[j] == h;
                        if j < k {
                            assert(before[j] == h);
                        } else {
                            assert(before[j + 1] == h);
                        }
                    }
                    if old(self)@.remove(id@).contains(h) {
                        let j = choose|j: int| 0 <= j < before.len() && before[j] == h;
                        assert(j != k);
                        if j < k {
                            assert(texts(self.ids@)[j] == h);
                        } else {
                            assert(texts(self.ids@)[j - 1] == h);
                        }
                    }
                }
                assert(self@ =~= old(self)@.remove(id@));
                true
            },
            None => {
                assert(self@ =~= old(self)@.remove(id@));
                false
            },
        }
    }
}

/// What the coordinator asks for after `begin`.
pub enum DownloadStep {
    /// The media is cached; the query has been linked to its record.
    AlreadyCached,
    /// Run `program` with `args`; then report the outcome to `complete_at`
    /// or `complete`.
    Fetch { id: String, program: String, args: Vec<String> },
}

/// Why a download request ends without a new record.
pub enum DownloadError {
    /// A download of the same content is under way.
    AlreadyInFlight,
    /// The fetch tool did not succeed.
    FetchFailed,
    /// The cache refused the record.
    Store(CacheError),
}

/// State of the coordinator, as the laws speak of it.
pub struct CoordView {
    pub recs: Seq<RecordView>,
    pub flying: Set<Seq<char>>,
}

/// The three branches of `begin`.
pub enum BeginKind {
    Cached,
    InFlight,
    Fetch,
}

/// Which branch `begin` takes for `url`.
pub open spec fn begin_kind(v: CoordView, url: Seq<char>) -> BeginKind {
    if cached(v.recs, url) {
        BeginKind::Cached
    } else if v.flying.contains(content_id_of(url)) {
        BeginKind::InFlight
    } else {
        BeginKind::Fetch
    }
}

/// State after `begin(url, q)`.
pub open spec fn after_begin(v: CoordView, url: Seq<char>, q: Seq<char>) -> CoordView {
    match begin_kind(v, url) {
        BeginKind::Cached => CoordView { recs: link_spec(v.recs, url, q), flying: v.flying },
        BeginKind::InFlight => v,
        BeginKind::Fetch => CoordView { recs: v.recs, flying: v.flying.insert(content_id_of(url)) },
    }
}

/// Whether `complete_at` commits a record: the fetch succeeded, this download
/// held the in-flight slot, and nothing was cached meanwhile.
pub open spec fn commits(v: CoordView, url: Seq<char>, fetched: bool) -> bool {
    fetched && v.flying.contains(content_id_of(url)) && !cached(v.recs, url)
}

/// State after `complete_at(url, q, title, fetched, at)`.
pub open spec fn after_complete(
    v: CoordView,
    url: Seq<char>,
    q: Seq<char>,
    title: Option<Seq<char>>,
    fetched: bool,
    at: i64,
) -> CoordView {
    CoordView {
        recs: if commits(v, url, fetched) {
            v.recs.push(new_record(url, q, title, at))
        } else {
            v.recs
        },
        flying: v.flying.remove(content_id_of(url)),
    }
}

/// Guards duplicate downloads and commits finished ones to the cache.
pub struct DownloadCoordinator {
    pub cache: ContentCache,
    pub in_flight: InFlightSet,
}

impl View for DownloadCoordinator {
    type V = CoordView;

    open spec fn view(&self) -> CoordView {
        CoordView { recs: self.cache@, flying: self.in_flight@ }
    }
}

impl DownloadCoordinator {
    pub open spec fn wf(&self) -> bool {
        self.cache.wf() && self.in_flight.wf()
    }

    pub fn new(cache: ContentCache) -> (r: DownloadCoordinator)
        requires
            cache.wf(),
        ensures
            r.wf(),
            r@.recs == cache@,
            r@.flying == Set::<Seq<char>>::empty(),
    {
        DownloadCoordinator { cache, in_flight: InFlightSet::new() }
    }

    /// First half of a cache request for `url`, found through `query`: links
    /// the query when the media is cached, refuses when a download of it is
    /// under way, and otherwise claims the in-flight slot and says how to run
    /// the fetch, writing under `home`.
    pub fn begin(&mut self, url: &str, query: &str, home: &str) -> (r: Result<DownloadStep, DownloadError>)
        requires
            old(self).wf(),
        ensures
            final(self).wf(),
            final(self)@ == after_begin(old(self)@, url@, query@),
            match begin_kind(old(self)@, url@) {
                BeginKind::Cached => r matches Ok(DownloadStep::AlreadyCached),
                BeginKind::InFlight => r matches Err(DownloadError::AlreadyInFlight),
                BeginKind::Fetch => r matches Ok(DownloadStep::Fetch { id, program, args })
                    && id@ == content_id_of(url@)
                    && program@ == FETCH_PROGRAM@
                    && texts(args@) == fetch_args_spec(url@, cached_file_path_spec(home@, content_id_of(url@))),
            },
    {
        if self.cache.is_cached(url) {
            self.cache.link_query(url, query);
            return Ok(DownloadStep::AlreadyCached);
        }
        let id = content_id(url);
        if !self.in_flight.try_insert(id.as_str()) {
            assert(self.in_flight@ =~= old(self).in_flight@);
            return Err(DownloadError::AlreadyInFlight);
        }
        let out = cached_file_path(home, id.as_str());
        let args = fetch_args(url, out.as_str());
        Ok(DownloadStep::Fetch { id, program: FETCH_PROGRAM.to_owned(), args })
    }

    /// Second half: releases the in-flight slot of `url` and, when the fetch
    /// succeeded and this download held the slot, commits the record, dated
    /// `cached_at`.
    pub fn complete_at(
        &mut self,
        url: &str,
        query: &str,
        title: Option<String>,
        fetched: bool,
        cached_at: i64,
    ) -> (r: Result<(), DownloadError>)
        requires
            old(self).wf(),
        ensures
            final(self).wf(),
            final(self)@ == after_complete(old(self)@, url@, query@, opt_text(title), fetched, cached_at),
            !fetched ==> r matches Err(DownloadError::FetchFailed),
            fetched && !old(self)@.flying.contains(content_id_of(url@)) ==> r is Ok,
            fetched && old(self)@.flying.contains(content_id_of(url@)) ==> (r is Ok <==> !cached(old(self)@.recs, url@)),
            fetched ==> (r is Ok || r matches Err(DownloadError::Store(CacheError::DuplicateId))),
    {
        let id = content_id(url);
        let held = self.in_flight.remove(id.as_str());
        if !fetched {
            return Err(DownloadError::FetchFailed);
        }
        if !held {
            return Ok(());
        }
        match self.cache.commit(url, query, title, cached_at) {
            Ok(()) => Ok(()),
            Err(e) => Err(DownloadError::Store(e)),
        }
    }

    /// `complete_at`, dated now.
    pub fn complete(&mut self, url: &str, query: &str, title: Option<String>, fetched: bool) -> (r: Result<(), DownloadError>)
        requires
            old(self).wf(),
        ensures
            final(self).wf(),
            exists|at: i64| final(self)@ == after_complete(old(self)@, url@, query@, opt_text(title), fetched, at),
            !fetched ==> r matches Err(DownloadError::FetchFailed),
            fetched && !old(self)@.flying.contains(content_id_of(url@)) ==> r is Ok,
            fetched && old(self)@.flying.contains(content_id_of(url@)) ==> (r is Ok <==> !cached(old(self)@.recs, url@)),
    {
        let now = generate_current_timestamp();
        self.complete_at(url, query, title, fetched, now)
    }
}

/// Two cache requests for one URL, through queries `q1` and `q2`, where the
/// first one's download (if it starts one) succeeds, leave exactly one record
/// for the URL, and it lists both queries.
pub proof fn lemma_two_requests_one_record(
    v: CoordView,
    url: Seq<char>,
    q1: Seq<char>,
    q2: Seq<char>,
    title: Option<Seq<char>>,
    at: i64,
)
    requires
        records_wf(v.recs),
        !v.flying.contains(content_id_of(url)),
    ensures
        ({
            let v1 = after_begin(v, url, q1);
            let v2 = if begin_kind(v, url) is Fetch {
                after_complete(v1, url, q1, title, true, at)
            } else {
                v1
            };
            let v3 = after_begin(v2, url, q2);
            &&& records_wf(v3.recs)
            &&& id_match(v3.recs, content_id_of(url)) matches Some(k) && {
                &&& v3.recs[k].queries.contains(q1)
                &&& v3.recs[k].queries.contains(q2)
                &&& forall|j: int| 0 <= j < v3.recs.len() && j != k ==> v3.recs[j].id != content_id_of(url)
            }
        }),
{
    let id = content_id_of(url);
    let v1 = after_begin(v, url, q1);
    let v2 = if begin_kind(v, url) is Fetch {
        after_complete(v1, url, q1, title, true, at)
    } else {
        v1
    };
    if begin_kind(v, url) is Fetch {
        assert(commits(v1, url, true));
        lemma_commit(v.recs, url, q1, title, at);
        let n = v.recs.len() as int;
        assert(v2.recs[n].queries == seq![q1]);
        assert(v2.recs[n].queries[0] == q1);
    } else {
        lemma_link(v.recs, url, q1);
    }
    lemma_id_match_from(v2.recs, id, 0);
    assert(cached(v2.recs, url));
    lemma_link(v2.recs, url, q2);
    assert(begin_kind(v2, url) is Cached);
    let v3 = after_begin(v2, url, q2);
    assert(v3.recs == link_spec(v2.recs, url, q2));
    let k = id_match(v2.recs, id)->Some_0;
    lemma_id_match_from(v3.recs, id, 0);
    assert(v2.recs[k].queries.contains(q1));
    assert(v3.recs[k].queries.contains(q1));
    assert forall|j: int| 0 <= j < v3.recs.len() && j != k implies v3.recs[j].id != id by {
        assert(v3.recs[k].id == id);
    }
}

/// After a successful download of `url` requested through `q`, looking up
/// the URL finds a record with that URL, and so does looking up `q` when it
/// found nothing before.
pub proof fn lemma_download_then_lookup(
    v: CoordView,
    url: Seq<char>,
    q: Seq<char>,
    title: Option<Seq<char>>,
    at: i64,
)
    requires
        records_wf(v.recs),
        commits(v, url, true),
    ensures
        ({
            let recs = after_complete(v, url, q, title, true, at).recs;
            &&& lookup_index(recs, url) matches Some(k) && recs[k].url == url
            &&& lookup_index(v.recs, q) is None ==> (lookup_index(recs, q) matches Some(k) && recs[k].url == url)
        }),
{
    let recs = after_complete(v, url, q, title, true, at).recs;
    let n = v.recs.len() as int;
    lemma_commit(v.recs, url, q, title, at);
    if lookup_index(v.recs, q) is None {
        let qid = content_id_of(q);
        lemma_id_match_from(v.recs, qid, 0);
        lemma_id_match_from(recs, qid, 0);
        lemma_query_match_from(v.recs, q, 0);
        lemma_query_match_from(recs, q, 0);
        assert(recs[n].queries == seq![q]);
        assert(recs[n].queries[0] == q);
        assert forall|j: int| 0 <= j < n implies recs[j] == v.recs[j] by {}
    }
}

/// While a download of `url` is under way, another request for it starts no
/// second fetch.
pub proof fn lemma_no_second_fetch(v: CoordView, url: Seq<char>, q1: Seq<char>, q2: Seq<char>)
    requires
        begin_kind(v, url) is Fetch,
    ensures
        begin_kind(after_begin(v, url, q1), url) is InFlight,
{
}

} // verus!
