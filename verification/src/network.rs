use vstd::prelude::*;
use crate::hash::{hash_string, hash_text};
use crate::json::{canonical_json, doc_table_members, doc_with_table, json_canonical, json_string, quote_json, table_json_text};
use crate::kernel::{Note, Parcel, ParcelView};
use crate::step::{DataRecord, DataRecordView, Effect, EffectView, Fetch, FetchView, Loaded, LoadedView, Next, NextView, Step, StepView, fail_step, only, step_only};
use crate::table::Table;
use crate::text::{concat_str, split_on, split_str};
use crate::utility::{get_hash_table_addr, app_chain_file, app_chain_lookup_file, app_chain_lookup_path, app_chain_path, data_record_file, data_record_path, did_chain_lookup_file, did_chain_lookup_path, text_map, uri_key};

verus! {

broadcast use vstd::string::group_string_axioms;

/// The most app table addresses that the network actor caches.
pub const CACHE_LIMIT: u64 = 50;

/// A cached block of data and when it was cached (seconds since the Unix epoch).
#[derive(Debug)]
pub struct Cache<T> {
    created: u64,
    data: T,
}

pub struct CacheView {
    pub created: u64,
    pub data: Map<Seq<char>, Seq<char>>,
}

impl View for Cache<Table<String>> {
    type V = CacheView;

    closed spec fn view(&self) -> CacheView {
        CacheView { created: self.created, data: text_map(&self.data) }
    }
}

/// The state of the network actor: the IPFS address it was given and its
/// cache of app table addresses.
#[derive(Debug)]
pub struct Network {
    pub ipfs_url: String,
    pub app_uri_cache: Vec<Cache<Table<String>>>,
    pub url_cache_height: u64,
}

pub struct NetworkView {
    pub ipfs_url: Seq<char>,
    pub cache: Seq<CacheView>,
    pub height: u64,
}

impl View for Network {
    type V = NetworkView;

    open spec fn view(&self) -> NetworkView {
        NetworkView {
            ipfs_url: self.ipfs_url@,
            cache: self.app_uri_cache@.map_values(|c: Cache<Table<String>>| c@),
            height: self.url_cache_height,
        }
    }
}

/// Whether some block of the cache holds the app DID.
pub open spec fn is_cached(cache: Seq<CacheView>, did: Seq<char>) -> bool {
    exists|i: int| 0 <= i < cache.len() && #[trigger] cache[i].data.contains_key(did)
}

/// The address that the first block holding the app DID gives it, or the
/// empty text when no block holds it.
pub open spec fn cache_lookup(cache: Seq<CacheView>, did: Seq<char>) -> Seq<char>
    decreases cache.len(),
{
    if cache.len() == 0 {
        Seq::empty()
    } else if cache[0].data.contains_key(did) {
        cache[0].data[did]
    } else {
        cache_lookup(cache.drop_first(), did)
    }
}

impl NetworkView {
    /// The cache invariant: one block per cached app, each holding that app
    /// alone, at most `CACHE_LIMIT` of them, counted by the height.
    pub open spec fn wf(self) -> bool {
        &&& self.height == self.cache.len()
        &&& self.height <= CACHE_LIMIT
        &&& forall|i: int| 0 <= i < self.cache.len() ==> #[trigger] self.cache[i].data.dom().len() == 1
            && self.cache[i].data.dom().finite()
        &&& forall|i: int, j: int, k: Seq<char>|
            0 <= i < self.cache.len() && 0 <= j < self.cache.len() && i != j
                && #[trigger] self.cache[i].data.contains_key(k)
                ==> !(#[trigger] self.cache[j].data.contains_key(k))
    }

    /// The state after `set_cache_url`: the app's address is cached at `now`
    /// when the cache has room and does not hold the app yet.
    pub open spec fn set_cache(self, did: Seq<char>, uri: Seq<char>, now: u64) -> (NetworkView, bool) {
        if self.height < CACHE_LIMIT && !is_cached(self.cache, did) {
            (NetworkView {
                ipfs_url: self.ipfs_url,
                cache: self.cache.push(CacheView { created: now, data: map![did => uri] }),
                height: (self.height + 1) as u64,
            }, true)
        } else {
            (self, false)
        }
    }
}

proof fn lemma_cache_lookup(cache: Seq<CacheView>, did: Seq<char>, i: int)
    requires
        0 <= i < cache.len(),
        cache[i].data.contains_key(did),
        forall|j: int| 0 <= j < i ==> !(#[trigger] cache[j].data.contains_key(did)),
    ensures
        cache_lookup(cache, did) == cache[i].data[did],
    decreases i,
{
    if i > 0 {
        lemma_cache_lookup(cache.drop_first(), did, i - 1);
    }
}

proof fn lemma_cache_lookup_none(cache: Seq<CacheView>, did: Seq<char>)
    requires
        !is_cached(cache, did),
    ensures
        cache_lookup(cache, did) == Seq::<char>::empty(),
    decreases cache.len(),
{
    if cache.len() > 0 {
        assert(!cache[0].data.contains_key(did));
        assert forall|i: int| 0 <= i < cache.drop_first().len()
            implies !(#[trigger] cache.drop_first()[i].data.contains_key(did)) by {
            assert(cache.drop_first()[i] == cache[i + 1]);
        }
        lemma_cache_lookup_none(cache.drop_first(), did);
    }
}

impl Network {
    /// A network actor with an empty cache.
    pub fn new(ipfs_url: String) -> (n: Network)
        ensures
            n@.wf(),
            n@.ipfs_url == ipfs_url@,
            n@.cache.len() == 0,
    {
        let n = Network { ipfs_url, app_uri_cache: Vec::new(), url_cache_height: 0 };
        assert(n@.cache =~= Seq::<CacheView>::empty());
        n
    }

    /// The cached address of the app's hash table, or the empty text when it is not cached.
    pub fn cached_app_uri(&self, app_did: &str) -> (r: String)
        ensures
            r@ == cache_lookup(self@.cache, app_did@),
    {
        let n = self.app_uri_cache.len();
        let mut i: usize = 0;
        while i < n
            invariant
                n == self.app_uri_cache@.len(),
                i <= n,
                forall|j: int| 0 <= j < i ==> !(#[trigger] self@.cache[j].data.contains_key(app_did@)),
            decreases n - i,
        {
            let c = &self.app_uri_cache[i];
            assert(self@.cache[i as int] == c@);
            match c.data.get(app_did) {
                Some(u) => {
                    proof { lemma_cache_lookup(self@.cache, app_did@, i as int); }
                    return u.clone();
                },
                None => {},
            }
            i = i + 1;
        }
        proof { lemma_cache_lookup_none(self@.cache, app_did@); }
        String::new()
    }

    /// Whether some block of the cache holds the app.
    fn has_cached(&self, app_did: &str) -> (r: bool)
        ensures
            r == is_cached(self@.cache, app_did@),
    {
        let n = self.app_uri_cache.len();
        let mut i: usize = 0;
        while i < n
            invariant
                n == self.app_uri_cache@.len(),
                i <= n,
                forall|j: int| 0 <= j < i ==> !(#[trigger] self@.cache[j].data.contains_key(app_did@)),
            decreases n - i,
        {
            let c = &self.app_uri_cache[i];
            assert(self@.cache[i as int] == c@);
            if c.data.contains_key(app_did) {
                assert(self@.cache[i as int].data.contains_key(app_did@));
                return true;
            }
            i = i + 1;
        }
        false
    }

    /// Caches the address of an app's hash table, unless the cache is full or
    /// already holds the app. Returns whether it did.
    pub fn set_cache_url(&mut self, app_did: String, app_hashtable_uri: String, now: u64) -> (r: bool)
        requires
            old(self)@.wf(),
        ensures
            final(self)@.wf(),
            (final(self)@, r) == old(self)@.set_cache(app_did@, app_hashtable_uri@, now),
    {
        let exists = self.has_cached(app_did.as_str());
        if self.url_cache_height < CACHE_LIMIT && !exists {
            let ghost old_v = self@;
            let ghost did = app_did@;
            let ghost uri = app_hashtable_uri@;
            let mut data: Table<String> = Table::new();
            let _ = data.insert(app_did, app_hashtable_uri);
            let block = Cache { created: now, data };
            proof {
                assert(text_map(&block.data) =~= map![did => uri]);
                assert(block@.data.dom() =~= set![did]);
            }
            self.app_uri_cache.push(block);
            self.url_cache_height = self.url_cache_height + 1;
            proof {
                assert(self@.cache =~= old_v.cache.push(CacheView { created: now, data: map![did => uri] }));
            }
            true
        } else {
            false
        }
    }
}

/// A request to the network actor, as read from a `Note`.
#[derive(Debug)]
pub enum Request {
    /// Code 100: the DID document of a samaritan, as a JSON string.
    ReadDidDoc(String),
    /// Code 102: cache the address of an app's hash table.
    CreateAppLocality(String),
    /// Code 103, `#key#value#app`: store a JSON value under a key of the app's
    /// own table (the value is kept by its compact JSON text).
    InsertApp { key: String, val: String, app_did: String },
    /// Code 103, `sam#key#value#app`: store a JSON value in the data file that
    /// the app shares with the samaritan (the value is kept as it came).
    InsertDid { sam_did: String, key: String, val: String, app_did: String },
    /// Code 104, `#key#app`: read a key of the app's own table.
    GetApp { key: String, app_did: String },
    /// Code 104, `sam#key#app`: read a key of the data file shared with the samaritan.
    GetDid { sam_did: String, key: String, app_did: String },
    /// Code 105, `#key#app`: remove a key of the app's own table.
    DeleteApp { key: String, app_did: String },
    /// Code 105, `sam#key#app`: remove a key of the data file shared with the samaritan.
    DeleteDid { sam_did: String, key: String, app_did: String },
    /// A note that is answered at once with this parcel.
    Answer(Parcel),
    /// Parameters that the actor cannot read; it fails with this message.
    Malformed(String),
}

pub enum RequestView {
    ReadDidDoc(Seq<char>),
    CreateAppLocality(Seq<char>),
    InsertApp { key: Seq<char>, val: Seq<char>, app_did: Seq<char> },
    InsertDid { sam_did: Seq<char>, key: Seq<char>, val: Seq<char>, app_did: Seq<char> },
    GetApp { key: Seq<char>, app_did: Seq<char> },
    GetDid { sam_did: Seq<char>, key: Seq<char>, app_did: Seq<char> },
    DeleteApp { key: Seq<char>, app_did: Seq<char> },
    DeleteDid { sam_did: Seq<char>, key: Seq<char>, app_did: Seq<char> },
    Answer(ParcelView),
    Malformed,
}

impl View for Request {
    type V = RequestView;

    open spec fn view(&self) -> RequestView {
        match self {
            Request::ReadDidDoc(d) => RequestView::ReadDidDoc(d@),
            Request::CreateAppLocality(d) => RequestView::CreateAppLocality(d@),
            Request::InsertApp { key, val, app_did } => RequestView::InsertApp { key: key@, val: val@, app_did: app_did@ },
            Request::InsertDid { sam_did, key, val, app_did } =>
                RequestView::InsertDid { sam_did: sam_did@, key: key@, val: val@, app_did: app_did@ },
            Request::GetApp { key, app_did } => RequestView::GetApp { key: key@, app_did: app_did@ },
            Request::GetDid { sam_did, key, app_did } => RequestView::GetDid { sam_did: sam_did@, key: key@, app_did: app_did@ },
            Request::DeleteApp { key, app_did } => RequestView::DeleteApp { key: key@, app_did: app_did@ },
            Request::DeleteDid { sam_did, key, app_did } =>
                RequestView::DeleteDid { sam_did: sam_did@, key: key@, app_did: app_did@ },
            Request::Answer(p) => RequestView::Answer(p@),
            Request::Malformed(_) => RequestView::Malformed,
        }
    }
}

/// The answer to every insert.
pub open spec fn insert_answer() -> Seq<char> {
    "blessed assurance!"@
}

/// The insert that the `#`-separated parameters ask for. With an empty first
/// part the value is read as JSON first, before the app DID is looked for.
pub open spec fn insert_request(ps: Seq<Seq<char>>) -> RequestView {
    if ps[0].len() == 0 {
        if ps.len() < 3 {
            RequestView::Malformed
        } else {
            match json_canonical(ps[2]) {
                None => RequestView::Malformed,
                Some(v) => if ps.len() < 4 {
                    RequestView::Malformed
                } else {
                    RequestView::InsertApp { key: ps[1], val: v, app_did: ps[3] }
                },
            }
        }
    } else if ps.len() < 4 {
        RequestView::Malformed
    } else {
        RequestView::InsertDid { sam_did: ps[0], key: ps[1], val: ps[2], app_did: ps[3] }
    }
}

/// The read (`get`) or removal (`!get`) that the `#`-separated parameters ask for.
pub open spec fn query_request(ps: Seq<Seq<char>>, get: bool) -> RequestView {
    if ps.len() < 3 {
        RequestView::Malformed
    } else if ps[0].len() == 0 {
        if get {
            RequestView::GetApp { key: ps[1], app_did: ps[2] }
        } else {
            RequestView::DeleteApp { key: ps[1], app_did: ps[2] }
        }
    } else if get {
        RequestView::GetDid { sam_did: ps[0], key: ps[1], app_did: ps[2] }
    } else {
        RequestView::DeleteDid { sam_did: ps[0], key: ps[1], app_did: ps[2] }
    }
}

/// What a note asks of the network actor.
pub open spec fn parse_request_spec(code: u32, parcel: ParcelView) -> RequestView {
    if code == 100 {
        match parcel {
            ParcelView::String(p) => RequestView::ReadDidDoc(p),
            _ => RequestView::Answer(ParcelView::Empty),
        }
    } else if code == 102 {
        match parcel {
            ParcelView::String(p) => RequestView::CreateAppLocality(p),
            _ => RequestView::Answer(ParcelView::Empty),
        }
    } else if code == 103 {
        match parcel {
            ParcelView::String(p) => insert_request(split_on(p, '#')),
            _ => RequestView::Answer(ParcelView::String(insert_answer())),
        }
    } else if code == 104 {
        match parcel {
            ParcelView::String(p) => query_request(split_on(p, '#'), true),
            _ => RequestView::Answer(ParcelView::Empty),
        }
    } else if code == 105 {
        match parcel {
            ParcelView::String(p) => query_request(split_on(p, '#'), false),
            _ => RequestView::Answer(ParcelView::Empty),
        }
    } else {
        RequestView::Answer(ParcelView::Empty)
    }
}

fn answer_inserted() -> (r: Parcel)
    ensures
        r@ == ParcelView::String(insert_answer()),
{
    Parcel::String("blessed assurance!".to_owned())
}

fn malformed() -> (r: Request)
    ensures
        r@ == RequestView::Malformed,
{
    Request::Malformed("index out of bounds".to_owned())
}

fn parse_insert(p: &str) -> (r: Request)
    ensures
        r@ == insert_request(split_on(p@, '#')),
{
    let ps = split_str(p, '#');
    let ghost v = ps@.map_values(|q: String| q@);
    proof { crate::text::lemma_split_on_nonempty(p@, '#'); }
    assert(ps@.len() == v.len());
    assert(forall|i: int| 0 <= i < ps@.len() ==> #[trigger] v[i] == ps@[i]@);
    if ps[0].as_str().is_empty() {
        if ps.len() < 3 {
            return malformed();
        }
        match canonical_json(ps[2].as_str()) {
            None => malformed(),
            Some(val) => {
                if ps.len() < 4 {
                    malformed()
                } else {
                    Request::InsertApp { key: ps[1].clone(), val, app_did: ps[3].clone() }
                }
            },
        }
    } else if ps.len() < 4 {
        malformed()
    } else {
        Request::InsertDid { sam_did: ps[0].clone(), key: ps[1].clone(), val: ps[2].clone(), app_did: ps[3].clone() }
    }
}

fn parse_query(p: &str, get: bool) -> (r: Request)
    ensures
        r@ == query_request(split_on(p@, '#'), get),
{
    let ps = split_str(p, '#');
    let ghost v = ps@.map_values(|q: String| q@);
    assert(ps@.len() == v.len());
    assert(forall|i: int| 0 <= i < ps@.len() ==> #[trigger] v[i] == ps@[i]@);
    if ps.len() < 3 {
        malformed()
    } else if ps[0].as_str().is_empty() {
        if get {
            Request::GetApp { key: ps[1].clone(), app_did: ps[2].clone() }
        } else {
            Request::DeleteApp { key: ps[1].clone(), app_did: ps[2].clone() }
        }
    } else if get {
        Request::GetDid { sam_did: ps[0].clone(), key: ps[1].clone(), app_did: ps[2].clone() }
    } else {
        Request::DeleteDid { sam_did: ps[0].clone(), key: ps[1].clone(), app_did: ps[2].clone() }
    }
}

/// Reads what a note asks of the network actor.
pub fn parse_request(note: Note) -> (r: Request)
    ensures
        r@ == parse_request_spec(note.0, note.1@),
{
    let Note(code, parcel) = note;
    if code == 100 {
        match parcel {
            Parcel::String(p) => Request::ReadDidDoc(p),
            _ => Request::Answer(Parcel::Empty),
        }
    } else if code == 102 {
        match parcel {
            Parcel::String(p) => Request::CreateAppLocality(p),
            _ => Request::Answer(Parcel::Empty),
        }
    } else if code == 103 {
        match parcel {
            Parcel::String(p) => parse_insert(p.as_str()),
            _ => Request::Answer(answer_inserted()),
        }
    } else if code == 104 {
        match parcel {
            Parcel::String(p) => parse_query(p.as_str(), true),
            _ => Request::Answer(Parcel::Empty),
        }
    } else if code == 105 {
        match parcel {
            Parcel::String(p) => parse_query(p.as_str(), false),
            _ => Request::Answer(Parcel::Empty),
        }
    } else {
        Request::Answer(Parcel::Empty)
    }
}

/// The key under which the chain records access to the data file that an
/// app shares with a samaritan: the hash of the app DID followed by the samaritan DID.
pub open spec fn did_hash_key(app_did: Seq<char>, sam_did: Seq<char>) -> Seq<char> {
    hash_text(app_did + sam_did)
}

/// The data file that an app shares with a samaritan: `./ipfs/files/<hash key>.json`.
pub open spec fn did_file_url(app_did: Seq<char>, sam_did: Seq<char>) -> Seq<char> {
    "./ipfs/files/"@ + did_hash_key(app_did, sam_did) + ".json"@
}

/// The JSON string that the app's table keeps under the samaritan's DID:
/// a path named by the hash of the hash key.
pub open spec fn did_file_ref(app_did: Seq<char>, sam_did: Seq<char>) -> Seq<char> {
    "\"./ipfs/files/"@ + hash_text(did_hash_key(app_did, sam_did)) + ".json\""@
}

/// The answer to a read of revoked data.
pub open spec fn revoked_answer() -> Seq<char> {
    "{\"status\":\"revoked\"}"@
}

fn did_hash_key_of(app_did: &str, sam_did: &str) -> (r: String)
    ensures
        r@ == did_hash_key(app_did@, sam_did@),
{
    let h = concat_str(app_did, sam_did);
    hash_string(h.as_str())
}

fn did_file_url_of(hash_key: &str) -> (r: String)
    ensures
        r@ == "./ipfs/files/"@ + hash_key@ + ".json"@,
{
    let mut u = concat_str("./ipfs/files/", hash_key);
    u.append(".json");
    u
}

fn did_file_ref_of(hash_key: &str) -> (r: String)
    ensures
        r@ == "\"./ipfs/files/"@ + hash_text(hash_key@) + ".json\""@,
{
    let h = hash_string(hash_key);
    let mut u = concat_str("\"./ipfs/files/", h.as_str());
    u.append(".json\"");
    u
}

impl RequestView {
    /// Whether the request works on an app's table (and so first resolves its address).
    pub open spec fn is_app_scoped(self) -> bool {
        match self {
            RequestView::InsertApp { .. } | RequestView::InsertDid { .. } | RequestView::GetApp { .. }
            | RequestView::GetDid { .. } | RequestView::DeleteApp { .. } | RequestView::DeleteDid { .. } => true,
            _ => false,
        }
    }

    /// The app DID of an app-scoped request.
    pub open spec fn app_did(self) -> Seq<char> {
        match self {
            RequestView::InsertApp { app_did, .. } => app_did,
            RequestView::InsertDid { app_did, .. } => app_did,
            RequestView::GetApp { app_did, .. } => app_did,
            RequestView::GetDid { app_did, .. } => app_did,
            RequestView::DeleteApp { app_did, .. } => app_did,
            RequestView::DeleteDid { app_did, .. } => app_did,
            _ => Seq::empty(),
        }
    }

    /// The samaritan DID of a request on shared data.
    pub open spec fn sam_did(self) -> Seq<char> {
        match self {
            RequestView::InsertDid { sam_did, .. } => sam_did,
            RequestView::GetDid { sam_did, .. } => sam_did,
            RequestView::DeleteDid { sam_did, .. } => sam_did,
            _ => Seq::empty(),
        }
    }

    /// The key that a request reads, writes or removes.
    pub open spec fn key(self) -> Seq<char> {
        match self {
            RequestView::InsertApp { key, .. } => key,
            RequestView::InsertDid { key, .. } => key,
            RequestView::GetApp { key, .. } => key,
            RequestView::GetDid { key, .. } => key,
            RequestView::DeleteApp { key, .. } => key,
            RequestView::DeleteDid { key, .. } => key,
            _ => Seq::empty(),
        }
    }
}

impl Request {
    /// Whether the request works on an app's table.
    pub fn is_app_scoped(&self) -> (r: bool)
        ensures
            r == self@.is_app_scoped(),
    {
        matches!(self, Request::InsertApp { .. } | Request::InsertDid { .. } | Request::GetApp { .. }
            | Request::GetDid { .. } | Request::DeleteApp { .. } | Request::DeleteDid { .. })
    }

    fn app_did_ref(&self) -> (r: &String)
        requires
            self@.is_app_scoped(),
        ensures
            r@ == self@.app_did(),
    {
        match self {
            Request::InsertApp { app_did, .. } => app_did,
            Request::InsertDid { app_did, .. } => app_did,
            Request::GetApp { app_did, .. } => app_did,
            Request::GetDid { app_did, .. } => app_did,
            Request::DeleteApp { app_did, .. } => app_did,
            Request::DeleteDid { app_did, .. } => app_did,
            _ => { assert(false); unreached() },
        }
    }

    fn sam_did_ref(&self) -> (r: &String)
        requires
            self@ is InsertDid || self@ is GetDid || self@ is DeleteDid,
        ensures
            r@ == self@.sam_did(),
    {
        match self {
            Request::InsertDid { sam_did, .. } => sam_did,
            Request::GetDid { sam_did, .. } => sam_did,
            Request::DeleteDid { sam_did, .. } => sam_did,
            _ => { assert(false); unreached() },
        }
    }

    fn key_ref(&self) -> (r: &String)
        requires
            self@.is_app_scoped(),
        ensures
            r@ == self@.key(),
    {
        match self {
            Request::InsertApp { key, .. } => key,
            Request::InsertDid { key, .. } => key,
            Request::GetApp { key, .. } => key,
            Request::GetDid { key, .. } => key,
            Request::DeleteApp { key, .. } => key,
            Request::DeleteDid { key, .. } => key,
            _ => { assert(false); unreached() },
        }
    }
}

/// Where a request of the network actor stands between two steps.
#[derive(Debug)]
pub enum Task {
    /// The request is answered (or has failed).
    Done,
    /// The request has not started.
    Begin(Request),
    /// Reading a DID document: waiting for the chain record of the DID root table.
    DocChain(String),
    /// Reading a DID document: waiting for the DID root table.
    DocRoot(String),
    /// Reading a DID document: waiting for its text.
    DocText,
    /// Caching an app's address: waiting for the chain record of the apps root table.
    LocalityChain(String),
    /// Caching an app's address: waiting for the apps root table.
    LocalityApps(String),
    /// The app's address is not cached: waiting for the chain record of the apps root table.
    ResolveChain(Request),
    /// The app's address is not cached: waiting for the apps root table.
    ResolveRoot(Request),
    /// Waiting for the app's own table, stored at the given address.
    AppTable(Request, String),
    /// Inserting shared data: waiting for the chain record of the DID root table
    /// (with the app's address and table).
    SamChain(Request, String, Table<String>),
    /// Inserting shared data: waiting for the DID root table.
    SamRoot(Request, String, Table<String>),
    /// Inserting shared data: waiting for the text of the samaritan's DID document at the path.
    SamDoc(Request, String, Table<String>, String),
    /// Inserting shared data: waiting for the shared data file.
    InsertKv(Request),
    /// Reading or removing shared data: waiting for the access records.
    DidRecords(Request),
    /// Reading or removing shared data: waiting for the data file at the path.
    DidKv(Request, String),
}

pub enum TaskView {
    Done,
    Begin(RequestView),
    DocChain(Seq<char>),
    DocRoot(Seq<char>),
    DocText,
    LocalityChain(Seq<char>),
    LocalityApps(Seq<char>),
    ResolveChain(RequestView),
    ResolveRoot(RequestView),
    AppTable(RequestView, Seq<char>),
    SamChain(RequestView, Seq<char>, Map<Seq<char>, Seq<char>>),
    SamRoot(RequestView, Seq<char>, Map<Seq<char>, Seq<char>>),
    SamDoc(RequestView, Seq<char>, Map<Seq<char>, Seq<char>>, Seq<char>),
    InsertKv(RequestView),
    DidRecords(RequestView),
    DidKv(RequestView, Seq<char>),
}

impl View for Task {
    type V = TaskView;

    open spec fn view(&self) -> TaskView {
        match self {
            Task::Done => TaskView::Done,
            Task::Begin(r) => TaskView::Begin(r@),
            Task::DocChain(d) => TaskView::DocChain(d@),
            Task::DocRoot(d) => TaskView::DocRoot(d@),
            Task::DocText => TaskView::DocText,
            Task::LocalityChain(d) => TaskView::LocalityChain(d@),
            Task::LocalityApps(d) => TaskView::LocalityApps(d@),
            Task::ResolveChain(r) => TaskView::ResolveChain(r@),
            Task::ResolveRoot(r) => TaskView::ResolveRoot(r@),
            Task::AppTable(r, u) => TaskView::AppTable(r@, u@),
            Task::SamChain(r, u, t) => TaskView::SamChain(r@, u@, text_map(t)),
            Task::SamRoot(r, u, t) => TaskView::SamRoot(r@, u@, text_map(t)),
            Task::SamDoc(r, u, t, d) => TaskView::SamDoc(r@, u@, text_map(t), d@),
            Task::InsertKv(r) => TaskView::InsertKv(r@),
            Task::DidRecords(r) => TaskView::DidRecords(r@),
            Task::DidKv(r, p) => TaskView::DidKv(r@, p@),
        }
    }
}

/// The step that fetches `f`.
pub open spec fn fetch(f: FetchView) -> StepView {
    only(NextView::Fetch(f))
}

/// The step that fails.
pub open spec fn fail() -> StepView {
    only(NextView::Fail)
}

/// The step that answers `p`.
pub open spec fn reply(p: ParcelView) -> StepView {
    only(NextView::Reply(p))
}

/// Follows a chain record to the table it names, then goes on as `then`.
pub open spec fn via_chain(c: Map<Seq<char>, Seq<char>>, then: TaskView) -> (TaskView, StepView) {
    if c.contains_key(uri_key()) {
        (then, fetch(FetchView::Strings(c[uri_key()])))
    } else {
        (TaskView::Done, fail())
    }
}

/// The answer holding the value of `key` in `t`, or the empty answer.
pub open spec fn value_answer(t: Map<Seq<char>, Seq<char>>, key: Seq<char>) -> ParcelView {
    if t.contains_key(key) {
        ParcelView::String(t[key])
    } else {
        ParcelView::Empty
    }
}

/// The first step of a request.
pub open spec fn begin_spec(net: NetworkView, req: RequestView) -> (TaskView, StepView) {
    match req {
        RequestView::ReadDidDoc(d) =>
            (TaskView::DocChain(d), fetch(FetchView::Strings(did_chain_lookup_path()))),
        RequestView::CreateAppLocality(d) =>
            (TaskView::LocalityChain(d), fetch(FetchView::Strings(app_chain_path()))),
        RequestView::Answer(p) => (TaskView::Done, reply(p)),
        RequestView::Malformed => (TaskView::Done, fail()),
        _ => {
            let u = cache_lookup(net.cache, req.app_did());
            if u.len() > 0 {
                (TaskView::AppTable(req, u), fetch(FetchView::Values(u)))
            } else {
                (TaskView::ResolveChain(req), fetch(FetchView::Strings(app_chain_lookup_path())))
            }
        },
    }
}

/// What a request does with the app's table `t`, stored at `uri`.
pub open spec fn app_table_spec(req: RequestView, uri: Seq<char>, t: Map<Seq<char>, Seq<char>>) -> (TaskView, StepView) {
    match req {
        RequestView::GetApp { key, .. } => (TaskView::Done, reply(value_answer(t, key))),
        RequestView::DeleteApp { key, .. } => if t.contains_key(key) {
            (TaskView::Done, StepView {
                effects: seq![EffectView::WriteValues(uri, t.remove(key))],
                next: NextView::Reply(ParcelView::String(t[key])),
            })
        } else {
            (TaskView::Done, reply(ParcelView::Empty))
        },
        RequestView::InsertApp { key, val, .. } => (TaskView::Done, StepView {
            effects: seq![EffectView::WriteValues(uri, t.insert(key, val))],
            next: NextView::Reply(ParcelView::String(insert_answer())),
        }),
        RequestView::InsertDid { .. } =>
            (TaskView::SamChain(req, uri, t), fetch(FetchView::Strings(did_chain_lookup_path()))),
        _ => if t.contains_key(req.sam_did()) {
            (TaskView::DidRecords(req), fetch(FetchView::Records(data_record_path())))
        } else {
            (TaskView::Done, reply(ParcelView::Empty))
        },
    }
}

/// Inserting shared data, given the text of the samaritan's DID document at
/// `path`: the document's hash table and the app's table gain the links they
/// lack (the document is rewritten with its other members as they were), the
/// data file is created with the latter, then the data file is read.
pub open spec fn sam_doc_spec(
    req: RequestView,
    uri: Seq<char>,
    at: Map<Seq<char>, Seq<char>>,
    path: Seq<char>,
    doc: Seq<char>,
) -> (TaskView, StepView) {
    let app = req.app_did();
    let sam = req.sam_did();
    let url = did_file_url(app, sam);
    let e2 = if at.contains_key(sam) {
        Seq::<EffectView>::empty()
    } else {
        seq![
            EffectView::WriteValues(uri, at.insert(sam, did_file_ref(app, sam))),
            EffectView::WriteFile(url, "{}"@),
        ]
    };
    match doc_table_members(doc) {
        None => (TaskView::Done, fail()),
        Some(e) => {
            let (ks, vs) = crate::utility::member_seqs(crate::utility::shape_members(e));
            if ks.contains(app) {
                (TaskView::InsertKv(req), StepView { effects: e2, next: NextView::Fetch(FetchView::Values(url)) })
            } else {
                match doc_with_table(doc, crate::json::json_object(ks.push(app), vs.push(url))) {
                    None => (TaskView::Done, fail()),
                    Some(nd) => (TaskView::InsertKv(req), StepView {
                        effects: seq![EffectView::ReplaceFile(path, nd)] + e2,
                        next: NextView::Fetch(FetchView::Values(url)),
                    }),
                }
            }
        },
    }
}

/// Inserting shared data into the data file `kv`.
pub open spec fn insert_kv_spec(req: RequestView, kv: Map<Seq<char>, Seq<char>>) -> (TaskView, StepView) {
    let app = req.app_did();
    let sam = req.sam_did();
    match json_canonical(req->InsertDid_val) {
        None => (TaskView::Done, fail()),
        Some(v) => (TaskView::Done, StepView {
            effects: seq![
                EffectView::WriteValues(did_file_url(app, sam), kv.insert(req.key(), v)),
                EffectView::NotifyChain(did_hash_key(app, sam), did_file_url(app, sam)),
            ],
            next: NextView::Reply(ParcelView::String(insert_answer())),
        }),
    }
}

/// Reading or removing shared data, given the access records.
pub open spec fn records_spec(req: RequestView, rt: Map<Seq<char>, DataRecordView>) -> (TaskView, StepView) {
    let hk = did_hash_key(req.app_did(), req.sam_did());
    if rt.contains_key(hk) {
        let rec = rt[hk];
        match rec.can_access {
            None => (TaskView::Done, fail()),
            Some(true) => match rec.uri {
                None => (TaskView::Done, fail()),
                Some(u) => (TaskView::DidKv(req, u), fetch(FetchView::Values(u))),
            },
            Some(false) => if req is GetDid {
                (TaskView::Done, reply(ParcelView::String(revoked_answer())))
            } else {
                (TaskView::Done, reply(ParcelView::Empty))
            },
        }
    } else {
        (TaskView::Done, reply(ParcelView::Empty))
    }
}

/// Reading or removing shared data in the data file `kv` at `path`.
pub open spec fn did_kv_spec(req: RequestView, path: Seq<char>, kv: Map<Seq<char>, Seq<char>>) -> (TaskView, StepView) {
    let key = req.key();
    if req is GetDid {
        (TaskView::Done, reply(value_answer(kv, key)))
    } else if kv.contains_key(key) {
        (TaskView::Done, StepView {
            effects: seq![EffectView::WriteValues(path, kv.remove(key))],
            next: NextView::Reply(ParcelView::String(kv[key])),
        })
    } else {
        (TaskView::Done, reply(ParcelView::Empty))
    }
}

/// One step of the network actor: from its state, where the request stands
/// and what was fetched for it, to its new state, where the request then
/// stands, and the effects and what comes next. The network state changes
/// only where an app's address is learnt from the apps root table. A stage
/// that gets what it did not ask for, or a request it does not serve, fails.
pub open spec fn network_step(net: NetworkView, task: TaskView, input: LoadedView, now: u64)
    -> (NetworkView, TaskView, StepView)
{
    match (task, input) {
        (TaskView::Begin(req), LoadedView::Nothing) => {
            let (t, s) = begin_spec(net, req);
            (net, t, s)
        },
        (TaskView::DocChain(d), LoadedView::Strings(c)) => {
            let (t, s) = via_chain(c, TaskView::DocRoot(d));
            (net, t, s)
        },
        (TaskView::DocRoot(d), LoadedView::Strings(r)) => if r.contains_key(d) {
            (net, TaskView::DocText, fetch(FetchView::Text(r[d])))
        } else {
            (net, TaskView::Done, fail())
        },
        (TaskView::DocText, LoadedView::Text(text)) =>
            (net, TaskView::Done, reply(ParcelView::String(json_string(text)))),
        (TaskView::LocalityChain(d), LoadedView::Strings(c)) => {
            let (t, s) = via_chain(c, TaskView::LocalityApps(d));
            (net, t, s)
        },
        (TaskView::LocalityApps(d), LoadedView::Strings(a)) => if a.contains_key(d) {
            (net.set_cache(d, a[d], now).0, TaskView::Done, reply(ParcelView::Empty))
        } else {
            (net, TaskView::Done, fail())
        },
        (TaskView::ResolveChain(req), LoadedView::Strings(c)) => if req.is_app_scoped() {
            let (t, s) = via_chain(c, TaskView::ResolveRoot(req));
            (net, t, s)
        } else {
            (net, TaskView::Done, fail())
        },
        (TaskView::ResolveRoot(req), LoadedView::Strings(a)) => {
            let app = req.app_did();
            if req.is_app_scoped() && a.contains_key(app) {
                (net.set_cache(app, a[app], now).0, TaskView::AppTable(req, a[app]), fetch(FetchView::Values(a[app])))
            } else {
                (net, TaskView::Done, fail())
            }
        },
        (TaskView::AppTable(req, uri), LoadedView::Values(t)) => if req.is_app_scoped() {
            let (t2, s) = app_table_spec(req, uri, t);
            (net, t2, s)
        } else {
            (net, TaskView::Done, fail())
        },
        (TaskView::SamChain(req, uri, at), LoadedView::Strings(c)) => if req is InsertDid {
            let (t, s) = via_chain(c, TaskView::SamRoot(req, uri, at));
            (net, t, s)
        } else {
            (net, TaskView::Done, fail())
        },
        (TaskView::SamRoot(req, uri, at), LoadedView::Strings(r)) => {
            let sam = req.sam_did();
            if req is InsertDid && r.contains_key(sam) {
                (net, TaskView::SamDoc(req, uri, at, r[sam]), fetch(FetchView::Text(r[sam])))
            } else {
                (net, TaskView::Done, fail())
            }
        },
        (TaskView::SamDoc(req, uri, at, path), LoadedView::Text(doc)) => if req is InsertDid {
            let (t, s) = sam_doc_spec(req, uri, at, path, doc);
            (net, t, s)
        } else {
            (net, TaskView::Done, fail())
        },
        (TaskView::InsertKv(req), LoadedView::Values(kv)) => if req is InsertDid {
            let (t, s) = insert_kv_spec(req, kv);
            (net, t, s)
        } else {
            (net, TaskView::Done, fail())
        },
        (TaskView::DidRecords(req), LoadedView::Records(rt)) => if req is GetDid || req is DeleteDid {
            let (t, s) = records_spec(req, rt);
            (net, t, s)
        } else {
            (net, TaskView::Done, fail())
        },
        (TaskView::DidKv(req, path), LoadedView::Values(kv)) => if req is GetDid || req is DeleteDid {
            let (t, s) = did_kv_spec(req, path, kv);
            (net, t, s)
        } else {
            (net, TaskView::Done, fail())
        },
        _ => (net, TaskView::Done, fail()),
    }
}

fn fetch_step(f: Fetch) -> (s: Step)
    ensures
        s@ == fetch(f@),
{
    step_only(Next::Fetch(f))
}

fn reply_step(p: Parcel) -> (s: Step)
    ensures
        s@ == reply(p@),
{
    step_only(Next::Reply(p))
}

/// The answer holding a key's value, or the empty answer.
fn value_reply(t: &Table<String>, key: &str) -> (p: Parcel)
    ensures
        p@ == value_answer(text_map(t), key@),
{
    match t.get(key) {
        Some(v) => Parcel::String(v.clone()),
        None => Parcel::Empty,
    }
}

/// Follows a chain record: fetches the table whose address it holds.
fn via_chain_exec(c: &Table<String>, then: Task) -> (r: (Task, Step))
    ensures
        (r.0@, r.1@) == via_chain(text_map(c), then@),
{
    if c.contains_key("uri") {
        let a = get_hash_table_addr(c);
        (then, fetch_step(Fetch::Strings(a)))
    } else {
        (Task::Done, fail_step("called `Option::unwrap()` on a `None` value"))
    }
}

/// The work on an app's own table: reading, removing or storing one of its
/// keys, or going on to the shared data of a samaritan.
fn app_table_exec(req: Request, uri: String, t: Table<String>) -> (r: (Task, Step))
    requires
        req@.is_app_scoped(),
    ensures
        (r.0@, r.1@) == app_table_spec(req@, uri@, text_map(&t)),
{
    let ghost tv = text_map(&t);
    match &req {
        Request::GetApp { key, .. } => {
            let p = value_reply(&t, key.as_str());
            (Task::Done, reply_step(p))
        },
        Request::DeleteApp { key, .. } => {
            let mut t = t;
            match t.remove(key.as_str()) {
                Some(v) => {
                    proof {
                        assert(text_map(&t) =~= tv.remove(key@));
                    }
                    let s = Step { effects: vec![Effect::WriteValues(uri, t)], next: Next::Reply(Parcel::String(v)) };
                    assert(s@.effects =~= seq![EffectView::WriteValues(uri@, tv.remove(key@))]);
                    (Task::Done, s)
                },
                None => (Task::Done, reply_step(Parcel::Empty)),
            }
        },
        Request::InsertApp { key, val, .. } => {
            let mut t = t;
            let _ = t.insert(key.clone(), val.clone());
            proof {
                assert(text_map(&t) =~= tv.insert(key@, val@));
            }
            let s = Step { effects: vec![Effect::WriteValues(uri, t)], next: Next::Reply(answer_inserted()) };
            assert(s@.effects =~= seq![EffectView::WriteValues(uri@, tv.insert(key@, val@))]);
            (Task::Done, s)
        },
        Request::InsertDid { .. } => {
            (Task::SamChain(req, uri, t), fetch_step(Fetch::Strings(did_chain_lookup_file().to_owned())))
        },
        _ => {
            if t.contains_key(req.sam_did_ref().as_str()) {
                (Task::DidRecords(req), fetch_step(Fetch::Records(data_record_file().to_owned())))
            } else {
                (Task::Done, reply_step(Parcel::Empty))
            }
        },
    }
}

/// Links an app and a samaritan to their shared data file, then fetches that file.
fn sam_doc_exec(req: Request, uri: String, at: Table<String>, path: String, doc: &str) -> (r: (Task, Step))
    requires
        req@ is InsertDid,
    ensures
        (r.0@, r.1@) == sam_doc_spec(req@, uri@, text_map(&at), path@, doc@),
{
    let ghost atv = text_map(&at);
    let st = match crate::utility::get_sam_hashtable(doc) {
        Some(t) => t,
        None => return (Task::Done, fail_step("called `Result::unwrap()` on an `Err` value")),
    };
    let ghost ks = st.key_seq();
    let ghost vs = st.val_seq().map_values(|v: String| v@);
    let app = req.app_did_ref().clone();
    let sam = req.sam_did_ref().clone();
    let hk = did_hash_key_of(app.as_str(), sam.as_str());
    let url = did_file_url_of(hk.as_str());
    let mut effects: Vec<Effect> = Vec::new();
    let ghost e1: Seq<EffectView>;
    if !st.contains_key(app.as_str()) {
        let mut st = st;
        let _ = st.insert(app.clone(), url.clone());
        proof {
            assert(st.val_seq().map_values(|v: String| v@) =~= vs.push(url@));
            assert(table_json_text(&st) == crate::json::json_object(ks.push(app@), vs.push(url@)));
        }
        match crate::utility::save_sam_htable(&st, doc) {
            Some(nd) => {
                let ghost ndv = nd@;
                effects.push(Effect::ReplaceFile(path, nd));
                proof { e1 = seq![EffectView::ReplaceFile(path@, ndv)]; }
            },
            None => return (Task::Done, fail_step("index into a non-object JSON value")),
        }
    } else {
        proof { e1 = Seq::<EffectView>::empty(); }
    }
    assert(effects@.map_values(|e: Effect| e@) =~= e1);
    let ghost e2: Seq<EffectView>;
    if !at.contains_key(sam.as_str()) {
        let mut at = at;
        let r = did_file_ref_of(hk.as_str());
        let ghost rv = r@;
        let _ = at.insert(sam.clone(), r);
        proof { assert(text_map(&at) =~= atv.insert(sam@, rv)); }
        effects.push(Effect::WriteValues(uri, at));
        effects.push(Effect::WriteFile(url.clone(), "{}".to_owned()));
        proof { e2 = seq![EffectView::WriteValues(uri@, atv.insert(sam@, rv)), EffectView::WriteFile(url@, "{}"@)]; }
    } else {
        proof { e2 = Seq::<EffectView>::empty(); }
    }
    assert(effects@.map_values(|e: Effect| e@) =~= e1 + e2);
    (Task::InsertKv(req), Step { effects, next: Next::Fetch(Fetch::Values(url)) })
}

/// Stores a value in the shared data file and tells the chain.
fn insert_kv_exec(req: Request, kv: Table<String>) -> (r: (Task, Step))
    requires
        req@ is InsertDid,
    ensures
        (r.0@, r.1@) == insert_kv_spec(req@, text_map(&kv)),
{
    let ghost kvv = text_map(&kv);
    match &req {
        Request::InsertDid { sam_did, key, val, app_did } => {
            match canonical_json(val.as_str()) {
                None => (Task::Done, fail_step("called `Result::unwrap()` on an `Err` value")),
                Some(v) => {
                    let hk = did_hash_key_of(app_did.as_str(), sam_did.as_str());
                    let url = did_file_url_of(hk.as_str());
                    let mut kv = kv;
                    let ghost vv = v@;
                    let _ = kv.insert(key.clone(), v);
                    proof { assert(text_map(&kv) =~= kvv.insert(key@, vv)); }
                    let s = Step {
                        effects: vec![Effect::WriteValues(url.clone(), kv), Effect::NotifyChain(hk, url)],
                        next: Next::Reply(answer_inserted()),
                    };
                    assert(s@.effects =~= seq![
                        EffectView::WriteValues(did_file_url(app_did@, sam_did@), kvv.insert(key@, vv)),
                        EffectView::NotifyChain(did_hash_key(app_did@, sam_did@), did_file_url(app_did@, sam_did@)),
                    ]);
                    (Task::Done, s)
                },
            }
        },
        _ => { assert(false); unreached() },
    }
}

fn revoked_reply() -> (p: Parcel)
    ensures
        p@ == ParcelView::String(revoked_answer()),
{
    Parcel::String("{\"status\":\"revoked\"}".to_owned())
}

/// Checks the access record of the shared data before it is read or removed.
fn records_exec(req: Request, rt: &Table<DataRecord>) -> (r: (Task, Step))
    requires
        req@ is GetDid || req@ is DeleteDid,
    ensures
        (r.0@, r.1@) == records_spec(req@, crate::step::record_map(rt)),
{
    let hk = did_hash_key_of(req.app_did_ref().as_str(), req.sam_did_ref().as_str());
    match rt.get(hk.as_str()) {
        None => (Task::Done, reply_step(Parcel::Empty)),
        Some(rec) => {
            match rec.can_access {
                None => (Task::Done, fail_step("called `Option::unwrap()` on a `None` value")),
                Some(true) => match &rec.uri {
                    None => (Task::Done, fail_step("called `Option::unwrap()` on a `None` value")),
                    Some(u) => {
                        let u2 = u.clone();
                        (Task::DidKv(req, u.clone()), fetch_step(Fetch::Values(u2)))
                    },
                },
                Some(false) => {
                    if matches!(req, Request::GetDid { .. }) {
                        (Task::Done, reply_step(revoked_reply()))
                    } else {
                        (Task::Done, reply_step(Parcel::Empty))
                    }
                },
            }
        },
    }
}

/// Reads or removes a key of the shared data file.
fn did_kv_exec(req: Request, path: String, kv: Table<String>) -> (r: (Task, Step))
    requires
        req@ is GetDid || req@ is DeleteDid,
    ensures
        (r.0@, r.1@) == did_kv_spec(req@, path@, text_map(&kv)),
{
    let ghost kvv = text_map(&kv);
    let key = req.key_ref().clone();
    if matches!(req, Request::GetDid { .. }) {
        let p = value_reply(&kv, key.as_str());
        (Task::Done, reply_step(p))
    } else {
        let mut kv = kv;
        match kv.remove(key.as_str()) {
            Some(v) => {
                proof { assert(text_map(&kv) =~= kvv.remove(key@)); }
                let s = Step { effects: vec![Effect::WriteValues(path, kv)], next: Next::Reply(Parcel::String(v)) };
                assert(s@.effects =~= seq![EffectView::WriteValues(path@, kvv.remove(key@))]);
                (Task::Done, s)
            },
            None => (Task::Done, reply_step(Parcel::Empty)),
        }
    }
}

impl Network {
    fn begin(&self, req: Request) -> (r: (Task, Step))
        ensures
            (r.0@, r.1@) == begin_spec(self@, req@),
    {
        match req {
            Request::ReadDidDoc(d) => (Task::DocChain(d), fetch_step(Fetch::Strings(did_chain_lookup_file().to_owned()))),
            Request::CreateAppLocality(d) => (Task::LocalityChain(d), fetch_step(Fetch::Strings(app_chain_file().to_owned()))),
            Request::Answer(p) => (Task::Done, reply_step(p)),
            Request::Malformed(m) => (Task::Done, fail_step(m.as_str())),
            _ => {
                let u = self.cached_app_uri(req.app_did_ref().as_str());
                if !u.as_str().is_empty() {
                    let u2 = u.clone();
                    (Task::AppTable(req, u), fetch_step(Fetch::Values(u2)))
                } else {
                    (Task::ResolveChain(req), fetch_step(Fetch::Strings(app_chain_lookup_file().to_owned())))
                }
            },
        }
    }

    /// One step of a request; see `network_step`. `now` is the time in
    /// seconds since the Unix epoch, with which a newly cached address is stamped.
    pub fn step(&mut self, task: Task, input: Loaded, now: u64) -> (r: (Task, Step))
        requires
            old(self)@.wf(),
        ensures
            final(self)@.wf(),
            (final(self)@, r.0@, r.1@) == network_step(old(self)@, task@, input@, now),
    {
        match (task, input) {
            (Task::Begin(req), Loaded::Nothing) => self.begin(req),
            (Task::DocChain(d), Loaded::Strings(c)) => via_chain_exec(&c, Task::DocRoot(d)),
            (Task::DocRoot(d), Loaded::Strings(r)) => match r.get(d.as_str()) {
                Some(p) => (Task::DocText, fetch_step(Fetch::Text(p.clone()))),
                None => (Task::Done, fail_step("called `Option::unwrap()` on a `None` value")),
            },
            (Task::DocText, Loaded::Text(text)) =>
                (Task::Done, reply_step(Parcel::String(quote_json(text.as_str())))),
            (Task::LocalityChain(d), Loaded::Strings(c)) => via_chain_exec(&c, Task::LocalityApps(d)),
            (Task::LocalityApps(d), Loaded::Strings(a)) => match a.get(d.as_str()) {
                Some(u) => {
                    let _ = self.set_cache_url(d, u.clone(), now);
                    (Task::Done, reply_step(Parcel::Empty))
                },
                None => (Task::Done, fail_step("called `Option::unwrap()` on a `None` value")),
            },
            (Task::ResolveChain(req), Loaded::Strings(c)) => {
                if req.is_app_scoped() {
                    via_chain_exec(&c, Task::ResolveRoot(req))
                } else {
                    (Task::Done, fail_step("unexpected request"))
                }
            },
            (Task::ResolveRoot(req), Loaded::Strings(a)) => {
                if req.is_app_scoped() {
                    let app = req.app_did_ref().clone();
                    match a.get(app.as_str()) {
                        Some(u) => {
                            let u1 = u.clone();
                            let u2 = u.clone();
                            let _ = self.set_cache_url(app, u.clone(), now);
                            (Task::AppTable(req, u1), fetch_step(Fetch::Values(u2)))
                        },
                        None => (Task::Done, fail_step("called `Option::unwrap()` on a `None` value")),
                    }
                } else {
                    (Task::Done, fail_step("unexpected request"))
                }
            },
            (Task::AppTable(req, uri), Loaded::Values(t)) => {
                if req.is_app_scoped() {
                    app_table_exec(req, uri, t)
                } else {
                    (Task::Done, fail_step("unexpected request"))
                }
            },
            (Task::SamChain(req, uri, at), Loaded::Strings(c)) => {
                if matches!(req, Request::InsertDid { .. }) {
                    via_chain_exec(&c, Task::SamRoot(req, uri, at))
                } else {
                    (Task::Done, fail_step("unexpected request"))
                }
            },
            (Task::SamRoot(req, uri, at), Loaded::Strings(r)) => {
                if matches!(req, Request::InsertDid { .. }) {
                    let sam = req.sam_did_ref().clone();
                    match r.get(sam.as_str()) {
                        Some(doc) => {
                            let d1 = doc.clone();
                            let d2 = doc.clone();
                            (Task::SamDoc(req, uri, at, d1), fetch_step(Fetch::Text(d2)))
                        },
                        None => (Task::Done, fail_step("called `Option::unwrap()` on a `None` value")),
                    }
                } else {
                    (Task::Done, fail_step("unexpected request"))
                }
            },
            (Task::SamDoc(req, uri, at, path), Loaded::Text(doc)) => {
                if matches!(req, Request::InsertDid { .. }) {
                    sam_doc_exec(req, uri, at, path, doc.as_str())
                } else {
                    (Task::Done, fail_step("unexpected request"))
                }
            },
            (Task::InsertKv(req), Loaded::Values(kv)) => {
                if matches!(req, Request::InsertDid { .. }) {
                    insert_kv_exec(req, kv)
                } else {
                    (Task::Done, fail_step("unexpected request"))
                }
            },
            (Task::DidRecords(req), Loaded::Records(rt)) => {
                if matches!(req, Request::GetDid { .. } | Request::DeleteDid { .. }) {
                    records_exec(req, &rt)
                } else {
                    (Task::Done, fail_step("unexpected request"))
                }
            },
            (Task::DidKv(req, path), Loaded::Values(kv)) => {
                if matches!(req, Request::GetDid { .. } | Request::DeleteDid { .. }) {
                    did_kv_exec(req, path, kv)
                } else {
                    (Task::Done, fail_step("unexpected request"))
                }
            },
            _ => (Task::Done, fail_step("unexpected input")),
        }
    }

    /// Publishing the hash table to IPFS is not done by this node; the state is left as it is.
    pub fn sync_hash_table(&mut self)
        ensures
            final(self)@ == old(self)@,
    {
    }

    /// Starts the request that a note makes: its first step.
    pub fn handle(&mut self, msg: Note, now: u64) -> (r: (Task, Step))
        requires
            old(self)@.wf(),
        ensures
            final(self)@ == old(self)@,
            (r.0@, r.1@) == begin_spec(old(self)@, parse_request_spec(msg.0, msg.1@)),
    {
        let req = parse_request(msg);
        self.begin(req)
    }
}

} // verus!
