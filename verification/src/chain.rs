use vstd::prelude::*;
use crate::hash::{hash_string, hash_text};
use crate::json::{inserted_json, lemma_inserted_json, table_json, table_json_text};
use crate::kernel::{Note, Parcel, ParcelView};
use crate::random::{alnum_text, generate_random_words, random_alphanumeric, words_text};
use crate::step::{Effect, EffectView, Fetch, FetchView, Loaded, LoadedView, Next, NextView, Step, StepView, fail_step, only, step_only};
use crate::table::Table;
use crate::text::{concat_str, split_on, split_str};
use crate::utility::{
    app_chain_file, app_chain_path, did_chain_file, did_chain_lookup_file, did_chain_lookup_path, did_chain_path,
    get_hash_table_addr, get_random_str, ipfs_file, ipfs_path, keyring_file, keyring_path, text_map, uri_key,
    upload_to_ipfs_mimick,
};

verus! {

broadcast use vstd::string::group_string_axioms;

/// The chain client: it registers samaritans and apps on the simulated chain.
#[derive(Debug)]
pub struct ChainClient {}

/// What a registration is for: a samaritan with its root document, or an app.
#[derive(Debug)]
pub enum Purpose {
    User(String),
    App,
}

pub enum PurposeView {
    User(Seq<char>),
    App,
}

impl View for Purpose {
    type V = PurposeView;

    open spec fn view(&self) -> PurposeView {
        match self {
            Purpose::User(d) => PurposeView::User(d@),
            Purpose::App => PurposeView::App,
        }
    }
}

/// Where a registration stands between two steps.
#[derive(Debug)]
pub enum RegTask {
    Done,
    /// Looking for a free suffix of `n` characters: waiting for the chain record of the table to check.
    Suffix(Purpose, u32),
    /// Looking for a free suffix of `n` characters: waiting for the table to check it against.
    SuffixTable(Purpose, u32),
    /// A samaritan with this DID and root document path: waiting for the chain record of the DID root table.
    UserChain(String, String),
    /// A samaritan: waiting for the DID root table stored at the last path.
    UserTable(String, String, String),
    /// An app with this DID: waiting for the chain record of the apps root table.
    AppChain(String),
    /// An app: waiting for the apps root table stored at the path.
    AppMap(String, String),
    /// The root table was moved to the new address: waiting for the chain record
    /// to update (its path, the new address, then the DID and its seed phrase).
    SetUri(String, String, String, String),
    /// Waiting for the keyring, to record the DID under its seed phrase.
    Keyring(String, String),
}

pub enum RegTaskView {
    Done,
    Suffix(PurposeView, u32),
    SuffixTable(PurposeView, u32),
    UserChain(Seq<char>, Seq<char>),
    UserTable(Seq<char>, Seq<char>, Seq<char>),
    AppChain(Seq<char>),
    AppMap(Seq<char>, Seq<char>),
    SetUri(Seq<char>, Seq<char>, Seq<char>, Seq<char>),
    Keyring(Seq<char>, Seq<char>),
}

impl View for RegTask {
    type V = RegTaskView;

    open spec fn view(&self) -> RegTaskView {
        match self {
            RegTask::Done => RegTaskView::Done,
            RegTask::Suffix(p, n) => RegTaskView::Suffix(p@, *n),
            RegTask::SuffixTable(p, n) => RegTaskView::SuffixTable(p@, *n),
            RegTask::UserChain(d, p) => RegTaskView::UserChain(d@, p@),
            RegTask::UserTable(d, p, a) => RegTaskView::UserTable(d@, p@, a@),
            RegTask::AppChain(d) => RegTaskView::AppChain(d@),
            RegTask::AppMap(d, u) => RegTaskView::AppMap(d@, u@),
            RegTask::SetUri(s, a, d, w) => RegTaskView::SetUri(s@, a@, d@, w@),
            RegTask::Keyring(d, w) => RegTaskView::Keyring(d@, w@),
        }
    }
}

/// The random draws that a step of a registration uses: a candidate suffix, a seed phrase.
#[derive(Debug)]
pub struct Draw {
    pub suffix: String,
    pub words: String,
}

pub struct DrawView {
    pub suffix: Seq<char>,
    pub words: Seq<char>,
}

impl View for Draw {
    type V = DrawView;

    open spec fn view(&self) -> DrawView {
        DrawView { suffix: self.suffix@, words: self.words@ }
    }
}

/// The number of words in a seed phrase.
pub const SEED_WORDS: u32 = 12;

/// Whether the draws are ones that the random sources can give for the stage.
pub open spec fn draw_fits(task: RegTaskView, d: DrawView) -> bool {
    match task {
        RegTaskView::SuffixTable(_, n) => alnum_text(d.suffix, n as nat),
        RegTaskView::UserTable(..) | RegTaskView::AppMap(..) => words_text(d.words, SEED_WORDS as nat),
        _ => true,
    }
}

/// How a samaritan's DID begins.
pub open spec fn user_prefix() -> Seq<char> {
    "did:sam:root:"@
}

/// How an app's DID begins.
pub open spec fn app_prefix() -> Seq<char> {
    "did:sam:app:"@
}

/// The step that fetches `f`.
pub open spec fn fetch(f: FetchView) -> StepView {
    only(NextView::Fetch(f))
}

/// The step that fails.
pub open spec fn fail() -> StepView {
    only(NextView::Fail)
}

/// The first step of a registration: look up the chain record of the table
/// that the suffix must be free in (samaritans: 32 characters, checked in the
/// DID root table; apps: 48, checked in the apps root table).
pub open spec fn start_spec(p: PurposeView) -> (RegTaskView, StepView) {
    match p {
        PurposeView::User(_) => (RegTaskView::Suffix(p, 32), fetch(FetchView::Strings(did_chain_path()))),
        PurposeView::App => (RegTaskView::Suffix(p, 48), fetch(FetchView::Strings(app_chain_path()))),
    }
}

/// A free suffix was found: the registration goes on with its DID.
pub open spec fn suffix_found(p: PurposeView, suffix: Seq<char>) -> (RegTaskView, StepView) {
    match p {
        PurposeView::User(doc) => {
            let did = user_prefix() + suffix;
            let path = ipfs_path(hash_text(doc));
            (RegTaskView::UserChain(did, path), StepView {
                effects: seq![EffectView::CreateFile(path, doc)],
                next: NextView::Fetch(FetchView::Strings(did_chain_lookup_path())),
            })
        },
        PurposeView::App => (RegTaskView::AppChain(app_prefix() + suffix), fetch(FetchView::Strings(app_chain_path()))),
    }
}

/// A samaritan's root document is entered in the DID root table `t` stored
/// at `addr`; the table is then moved to the address named by its new hash.
pub open spec fn user_table_spec(did: Seq<char>, path: Seq<char>, addr: Seq<char>, t: &Table<String>, seed: Seq<char>)
    -> (RegTaskView, StepView)
{
    let moved = ipfs_path(hash_text(inserted_json(t, did, path)));
    (RegTaskView::SetUri(did_chain_path(), moved, did, seed), StepView {
        effects: seq![
            EffectView::WriteStrings(addr, text_map(t).insert(did, path), inserted_json(t, did, path)),
            EffectView::Rename(addr, moved),
        ],
        next: NextView::Fetch(FetchView::Strings(did_chain_path())),
    })
}

/// An app gets its own empty table, named by the fourth `:`-part of its DID,
/// which is entered in the apps root table `m` stored at `uri`; the root
/// table is then moved to the address named by its new hash.
pub open spec fn app_map_spec(did: Seq<char>, uri: Seq<char>, m: &Table<String>, seed: Seq<char>)
    -> (RegTaskView, StepView)
{
    let parts = split_on(did, ':');
    if parts.len() < 4 {
        (RegTaskView::Done, fail())
    } else {
        let path = ipfs_path(parts[3]);
        let moved = ipfs_path(hash_text(inserted_json(m, did, path)));
        (RegTaskView::SetUri(app_chain_path(), moved, did, seed), StepView {
            effects: seq![
                EffectView::CreateFile(path, "{}"@),
                EffectView::WriteStrings(uri, text_map(m).insert(did, path), inserted_json(m, did, path)),
                EffectView::Rename(uri, moved),
            ],
            next: NextView::Fetch(FetchView::Strings(app_chain_path())),
        })
    }
}

/// One step of a registration, given what was fetched and the random draws.
/// A stage that gets what it did not ask for fails.
pub open spec fn registration_step(task: RegTaskView, input: &Loaded, d: DrawView) -> (RegTaskView, StepView) {
    match (task, input@) {
        (RegTaskView::Suffix(p, n), LoadedView::Strings(c)) => if c.contains_key(uri_key()) {
            (RegTaskView::SuffixTable(p, n), fetch(FetchView::Strings(c[uri_key()])))
        } else {
            (RegTaskView::Done, fail())
        },
        (RegTaskView::SuffixTable(p, n), LoadedView::Strings(t)) => if t.contains_key(d.suffix) {
            (RegTaskView::Suffix(p, 32), fetch(FetchView::Strings(did_chain_path())))
        } else {
            suffix_found(p, d.suffix)
        },
        (RegTaskView::UserChain(did, path), LoadedView::Strings(c)) => if c.contains_key(uri_key()) {
            (RegTaskView::UserTable(did, path, c[uri_key()]), fetch(FetchView::Strings(c[uri_key()])))
        } else {
            (RegTaskView::Done, fail())
        },
        (RegTaskView::UserTable(did, path, addr), LoadedView::Strings(_)) => match input {
            Loaded::Strings(t) => user_table_spec(did, path, addr, t, d.words),
            _ => (RegTaskView::Done, fail()),
        },
        (RegTaskView::AppChain(did), LoadedView::Strings(c)) => if c.contains_key(uri_key()) {
            (RegTaskView::AppMap(did, c[uri_key()]), fetch(FetchView::Strings(c[uri_key()])))
        } else {
            (RegTaskView::Done, fail())
        },
        (RegTaskView::AppMap(did, uri), LoadedView::Strings(_)) => match input {
            Loaded::Strings(m) => app_map_spec(did, uri, m, d.words),
            _ => (RegTaskView::Done, fail()),
        },
        (RegTaskView::SetUri(storage, new_addr, did, seed), LoadedView::Strings(c)) => match input {
            Loaded::Strings(ct) => (RegTaskView::Keyring(did, seed), StepView {
                effects: seq![EffectView::WriteStrings(storage, c.insert(uri_key(), new_addr), inserted_json(ct, uri_key(), new_addr))],
                next: NextView::Fetch(FetchView::Strings(keyring_path())),
            }),
            _ => (RegTaskView::Done, fail()),
        },
        (RegTaskView::Keyring(did, seed), LoadedView::Strings(k)) => match input {
            Loaded::Strings(kt) => (RegTaskView::Done, StepView {
                effects: seq![EffectView::WriteStrings(keyring_path(), k.insert(hash_text(seed), did), inserted_json(kt, hash_text(seed), did))],
                next: NextView::Reply(ParcelView::Tuple1(did, seed)),
            }),
            _ => (RegTaskView::Done, fail()),
        },
        _ => (RegTaskView::Done, fail()),
    }
}

fn fetch_step(f: Fetch) -> (s: Step)
    ensures
        s@ == fetch(f@),
{
    step_only(Next::Fetch(f))
}

fn start_exec(p: Purpose) -> (r: (RegTask, Step))
    ensures
        (r.0@, r.1@) == start_spec(p@),
{
    match p {
        Purpose::User(doc) => (RegTask::Suffix(Purpose::User(doc), 32), fetch_step(Fetch::Strings(did_chain_file().to_owned()))),
        Purpose::App => (RegTask::Suffix(Purpose::App, 48), fetch_step(Fetch::Strings(app_chain_file().to_owned()))),
    }
}

fn suffix_found_exec(p: Purpose, suffix: String) -> (r: (RegTask, Step))
    ensures
        (r.0@, r.1@) == suffix_found(p@, suffix@),
{
    match p {
        Purpose::User(doc) => {
            let did = concat_str("did:sam:root:", suffix.as_str());
            let up = upload_to_ipfs_mimick(doc.as_str());
            match up.0 {
                Parcel::Tuple1(_cid, path) => {
                    let p2 = path.clone();
                    let ghost pv = path@;
                    let ghost dv = doc@;
                    let s = Step {
                        effects: vec![Effect::CreateFile(path, doc)],
                        next: Next::Fetch(Fetch::Strings(did_chain_lookup_file().to_owned())),
                    };
                    assert(s@.effects =~= seq![EffectView::CreateFile(pv, dv)]);
                    (RegTask::UserChain(did, p2), s)
                },
                _ => { assert(false); unreached() },
            }
        },
        Purpose::App => {
            let did = concat_str("did:sam:app:", suffix.as_str());
            (RegTask::AppChain(did), fetch_step(Fetch::Strings(app_chain_file().to_owned())))
        },
    }
}

/// Enters `k -> v` in the table and returns the address named by the hash of its new JSON text.
fn insert_and_move(t: &mut Table<String>, k: String, v: String) -> (moved: String)
    ensures
        text_map(final(t)) == text_map(old(t)).insert(k@, v@),
        table_json_text(final(t)) == inserted_json(old(t), k@, v@),
        moved@ == ipfs_path(hash_text(inserted_json(old(t), k@, v@))),
{
    let ghost old_t = *t;
    let ghost kv = k@;
    let ghost vs = v;
    let _ = t.insert(k, v);
    proof {
        assert(text_map(t) =~= text_map(&old_t).insert(kv, vs@));
        lemma_inserted_json(&old_t, t, kv, vs);
    }
    let text = table_json(t);
    let h = hash_string(text.as_str());
    ipfs_file(h.as_str())
}

impl ChainClient {
    /// A chain client.
    pub fn new() -> (c: ChainClient) {
        ChainClient {}
    }

    /// Starts registering a samaritan with the given root document.
    pub fn get_did_and_keys(&self, doc: String) -> (r: (RegTask, Step))
        ensures
            (r.0@, r.1@) == start_spec(PurposeView::User(doc@)),
    {
        start_exec(Purpose::User(doc))
    }

    /// Starts the request that a note makes: code 101 with a document registers
    /// a samaritan; any other note is answered with the empty parcel.
    pub fn handle(&self, msg: Note) -> (r: (RegTask, Step))
        ensures
            (r.0@, r.1@) == (if msg.0 == 101 && msg.1@ is String {
                start_spec(PurposeView::User(msg.1@->String_0))
            } else {
                (RegTaskView::Done, only(NextView::Reply(ParcelView::Empty)))
            }),
    {
        let Note(code, parcel) = msg;
        if code == 101 {
            match parcel {
                Parcel::String(doc) => return self.get_did_and_keys(doc),
                _ => {},
            }
        }
        (RegTask::Done, step_only(Next::Reply(Parcel::Empty)))
    }

    /// One step of a registration with the given random draws; see `registration_step`.
    pub fn advance(&self, task: RegTask, input: Loaded, draw: Draw) -> (r: (RegTask, Step))
        ensures
            (r.0@, r.1@) == registration_step(task@, &input, draw@),
    {
        match (task, input) {
            (RegTask::Suffix(p, n), Loaded::Strings(c)) => {
                if c.contains_key("uri") {
                    let a = get_hash_table_addr(&c);
                    (RegTask::SuffixTable(p, n), fetch_step(Fetch::Strings(a)))
                } else {
                    (RegTask::Done, fail_step("called `Option::unwrap()` on a `None` value"))
                }
            },
            (RegTask::SuffixTable(p, n), Loaded::Strings(t)) => {
                if t.contains_key(draw.suffix.as_str()) {
                    (RegTask::Suffix(p, 32), fetch_step(Fetch::Strings(did_chain_file().to_owned())))
                } else {
                    suffix_found_exec(p, draw.suffix)
                }
            },
            (RegTask::UserChain(did, path), Loaded::Strings(c)) => {
                if c.contains_key("uri") {
                    let a = get_hash_table_addr(&c);
                    let a2 = a.clone();
                    (RegTask::UserTable(did, path, a), fetch_step(Fetch::Strings(a2)))
                } else {
                    (RegTask::Done, fail_step("called `Option::unwrap()` on a `None` value"))
                }
            },
            (RegTask::UserTable(did, path, addr), Loaded::Strings(t)) => {
                let mut t = t;
                let moved = insert_and_move(&mut t, did.clone(), path);
                let m2 = moved.clone();
                let a2 = addr.clone();
                let ghost tm = text_map(&t);
                let ghost tx = table_json_text(&t);
                let ghost av = addr@;
                let ghost mv = moved@;
                let s = Step {
                    effects: vec![Effect::WriteStrings(addr, t), Effect::Rename(a2, moved)],
                    next: Next::Fetch(Fetch::Strings(did_chain_file().to_owned())),
                };
                assert(s@.effects =~= seq![EffectView::WriteStrings(av, tm, tx), EffectView::Rename(av, mv)]);
                (RegTask::SetUri(did_chain_file().to_owned(), m2, did, draw.words), s)
            },
            (RegTask::AppChain(did), Loaded::Strings(c)) => {
                if c.contains_key("uri") {
                    let a = get_hash_table_addr(&c);
                    let a2 = a.clone();
                    (RegTask::AppMap(did, a), fetch_step(Fetch::Strings(a2)))
                } else {
                    (RegTask::Done, fail_step("called `Option::unwrap()` on a `None` value"))
                }
            },
            (RegTask::AppMap(did, uri), Loaded::Strings(m)) => {
                let parts = split_str(did.as_str(), ':');
                proof {
                    assert(parts@.len() == parts@.map_values(|q: String| q@).len());
                }
                if parts.len() < 4 {
                    (RegTask::Done, fail_step("index out of bounds"))
                } else {
                    proof { assert(parts@.map_values(|q: String| q@)[3] == parts@[3]@); }
                    let path = ipfs_file(parts[3].as_str());
                    let mut m = m;
                    let p2 = path.clone();
                    let moved = insert_and_move(&mut m, did.clone(), path);
                    let m2 = moved.clone();
                    let u2 = uri.clone();
                    let ghost tm = text_map(&m);
                    let ghost tx = table_json_text(&m);
                    let ghost uv = uri@;
                    let ghost mv = moved@;
                    let ghost pv = p2@;
                    let s = Step {
                        effects: vec![
                            Effect::CreateFile(p2, "{}".to_owned()),
                            Effect::WriteStrings(uri, m),
                            Effect::Rename(u2, moved),
                        ],
                        next: Next::Fetch(Fetch::Strings(app_chain_file().to_owned())),
                    };
                    assert(s@.effects =~= seq![EffectView::CreateFile(pv, "{}"@), EffectView::WriteStrings(uv, tm, tx), EffectView::Rename(uv, mv)]);
                    (RegTask::SetUri(app_chain_file().to_owned(), m2, did, draw.words), s)
                }
            },
            (RegTask::SetUri(storage, new_addr, did, seed), Loaded::Strings(c)) => {
                let mut c = c;
                crate::utility::set_hash_table_uri(&mut c, new_addr);
                let ghost cm = text_map(&c);
                let ghost cx = table_json_text(&c);
                let ghost sv = storage@;
                let s = Step {
                    effects: vec![Effect::WriteStrings(storage, c)],
                    next: Next::Fetch(Fetch::Strings(keyring_file().to_owned())),
                };
                assert(s@.effects =~= seq![EffectView::WriteStrings(sv, cm, cx)]);
                (RegTask::Keyring(did, seed), s)
            },
            (RegTask::Keyring(did, seed), Loaded::Strings(k)) => {
                let mut k = k;
                crate::utility::update_keyring(&mut k, did.clone(), seed.as_str());
                let ghost km = text_map(&k);
                let ghost kx = table_json_text(&k);
                let kf = keyring_file().to_owned();
                let s = Step {
                    effects: vec![Effect::WriteStrings(kf, k)],
                    next: Next::Reply(Parcel::Tuple1(did, seed)),
                };
                assert(s@.effects =~= seq![EffectView::WriteStrings(keyring_path(), km, kx)]);
                (RegTask::Done, s)
            },
            _ => (RegTask::Done, fail_step("unexpected input")),
        }
    }

    /// One step of a registration. The stage that looks for a free suffix
    /// draws a candidate and keeps it where the table leaves it free, else
    /// starts the search again; the stages that enter a DID draw its seed
    /// phrase. Each step is the one `advance` takes with those draws.
    pub fn step(&self, task: RegTask, input: Loaded) -> (r: (RegTask, Step))
        ensures
            exists|d: DrawView| draw_fits(task@, d) && (r.0@, r.1@) == #[trigger] registration_step(task@, &input, d),
    {
        let ghost tv = task@;
        let ghost inp = input;
        match (task, input) {
            (RegTask::SuffixTable(p, n), Loaded::Strings(t)) => {
                let (s, free) = get_random_str(n, &t);
                let ghost dv = DrawView { suffix: s@, words: Seq::empty() };
                let r = if free {
                    suffix_found_exec(p, s)
                } else {
                    (RegTask::Suffix(p, 32), fetch_step(Fetch::Strings(did_chain_file().to_owned())))
                };
                assert(draw_fits(tv, dv));
                assert(registration_step(tv, &inp, dv) == (r.0@, r.1@));
                r
            },
            (task, input) => {
                let draw = match (&task, &input) {
                    (RegTask::UserTable(..), _) | (RegTask::AppMap(..), _) =>
                        Draw { suffix: String::new(), words: generate_random_words(SEED_WORDS) },
                    (RegTask::SuffixTable(_, n), _) => Draw { suffix: random_alphanumeric(*n), words: String::new() },
                    _ => Draw { suffix: String::new(), words: String::new() },
                };
                let ghost dv = draw@;
                let r = self.advance(task, input, draw);
                assert(draw_fits(tv, dv));
                assert(registration_step(tv, &inp, dv) == (r.0@, r.1@));
                r
            },
        }
    }
}

/// Starts registering a samaritan with the given root document (the
/// simulated chain behind `ChainClient::get_did_and_keys`).
pub fn get_did_and_keys_mimick(doc: &str) -> (r: (RegTask, Step))
    ensures
        (r.0@, r.1@) == start_spec(PurposeView::User(doc@)),
{
    start_exec(Purpose::User(doc.to_owned()))
}

/// Starts registering an app.
pub fn create_api_keys_mimick() -> (r: (RegTask, Step))
    ensures
        (r.0@, r.1@) == start_spec(PurposeView::App),
{
    start_exec(Purpose::App)
}

} // verus!
