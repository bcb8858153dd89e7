use std::collections::HashMap;

use kernel::kernel::{Note, Parcel};
use kernel::network::{parse_request, Network, Request, Task};
use kernel::step::{DataRecord, Effect, Fetch, Loaded, Next};
use kernel::table::Table;

#[derive(Default, Clone, PartialEq, Debug)]
struct Files {
    tables: HashMap<String, Vec<(String, String)>>,
    records: HashMap<String, Vec<(String, Option<bool>, Option<String>)>>,
    texts: HashMap<String, String>,
    notices: Vec<(String, String)>,
}

fn table_of(entries: &[(String, String)]) -> Table<String> {
    let mut t = Table::new();
    for (k, v) in entries {
        t.insert(k.clone(), v.clone());
    }
    t
}

fn entries_of(t: &Table<String>) -> Vec<(String, String)> {
    (0..t.len()).map(|i| (t.key_at(i).clone(), t.value_at(i).clone())).collect()
}

fn apply(files: &mut Files, e: Effect) {
    match e {
        Effect::WriteStrings(p, t) | Effect::WriteValues(p, t) => {
            files.tables.insert(p, entries_of(&t));
        }
        Effect::ReplaceFile(p, c) => {
            assert!(files.texts.contains_key(&p));
            files.texts.insert(p, c);
        }
        Effect::CreateFile(p, c) | Effect::WriteFile(p, c) => {
            assert_eq!(c, "{}");
            files.tables.insert(p, Vec::new());
        }
        Effect::Rename(a, b) => {
            let t = files.tables.remove(&a).unwrap();
            files.tables.insert(b, t);
        }
        Effect::NotifyChain(k, p) => files.notices.push((k, p)),
    }
}

fn load(files: &Files, f: Fetch) -> Loaded {
    match f {
        Fetch::Strings(p) | Fetch::Values(p) => Loaded::Strings(table_of(files.tables.get(&p).expect("missing file"))),
        Fetch::Records(p) => {
            let mut t = Table::new();
            for (k, c, u) in files.records.get(&p).expect("missing records") {
                t.insert(k.clone(), DataRecord { can_access: *c, uri: u.clone() });
            }
            Loaded::Records(t)
        }
        Fetch::Text(p) => Loaded::Text(files.texts.get(&p).expect("missing text").clone()),
    }
}

fn fix_kind(f: &Fetch, l: Loaded) -> Loaded {
    match (f, l) {
        (Fetch::Values(_), Loaded::Strings(t)) => Loaded::Values(t),
        (_, l) => l,
    }
}

fn run(net: &mut Network, note: Note, files: &mut Files, now: u64) -> Result<Parcel, String> {
    let (mut task, mut step) = net.handle(note, now);
    loop {
        for e in step.effects {
            apply(files, e);
        }
        match step.next {
            Next::Reply(p) => return Ok(p),
            Next::Fail(m) => return Err(m),
            Next::Fetch(f) => {
                let input = fix_kind(&f, load(files, Fetch::clone_of(&f)));
                let (t, s) = net.step(task, input, now);
                task = t;
                step = s;
            }
        }
    }
}

trait CloneOf {
    fn clone_of(f: &Fetch) -> Fetch;
}

impl CloneOf for Fetch {
    fn clone_of(f: &Fetch) -> Fetch {
        match f {
            Fetch::Strings(p) => Fetch::Strings(p.clone()),
            Fetch::Values(p) => Fetch::Values(p.clone()),
            Fetch::Records(p) => Fetch::Records(p.clone()),
            Fetch::Text(p) => Fetch::Text(p.clone()),
        }
    }
}

fn s(x: &str) -> String {
    x.to_string()
}

fn setup() -> Files {
    let mut f = Files::default();
    f.tables.insert(s("./chain/AppHashtableUri.json"), vec![(s("uri"), s("./ipfs/apps.json"))]);
    f.tables.insert(s("./chain/AppHashTableUri.json"), vec![(s("uri"), s("./ipfs/apps.json"))]);
    f.tables.insert(s("./chain/HashtableUri.json"), vec![(s("uri"), s("./ipfs/dids.json"))]);
    f.tables.insert(s("./ipfs/apps.json"), vec![(s("did:sam:app:A"), s("./ipfs/A.json"))]);
    f.tables.insert(s("./ipfs/A.json"), vec![]);
    f.tables.insert(s("./ipfs/dids.json"), vec![(s("did:sam:root:S"), s("./ipfs/S-doc.json"))]);
    f.texts.insert(s("./ipfs/S-doc.json"), s("{\"name\":\"S\",\"hash_table\":{\"n\":3}}"));
    f
}

fn string_note(code: u32, p: &str) -> Note {
    Note(code, Parcel::String(s(p)))
}

#[test]
fn app_record_round_trip() {
    let mut files = setup();
    let mut net = Network::new(s("empty"));
    let r = run(&mut net, string_note(103, "#colour# \"blue\" #did:sam:app:A"), &mut files, 7).unwrap();
    assert!(matches!(r, Parcel::String(ref x) if x == "blessed assurance!"));
    let r = run(&mut net, string_note(104, "#colour#did:sam:app:A"), &mut files, 7).unwrap();
    assert!(matches!(r, Parcel::String(ref x) if x == "\"blue\""));
    // the address was cached on the first request
    assert_eq!(net.url_cache_height, 1);
    assert_eq!(net.cached_app_uri("did:sam:app:A"), "./ipfs/A.json");
}

#[test]
fn app_record_delete_then_get() {
    let mut files = setup();
    let mut net = Network::new(s("empty"));
    run(&mut net, string_note(103, "#n#42#did:sam:app:A"), &mut files, 7).unwrap();
    let r = run(&mut net, string_note(105, "#n#did:sam:app:A"), &mut files, 7).unwrap();
    assert!(matches!(r, Parcel::String(ref x) if x == "42"));
    let r = run(&mut net, string_note(104, "#n#did:sam:app:A"), &mut files, 7).unwrap();
    assert!(matches!(r, Parcel::Empty));
    let r = run(&mut net, string_note(105, "#n#did:sam:app:A"), &mut files, 7).unwrap();
    assert!(matches!(r, Parcel::Empty));
}

#[test]
fn shared_record_insert_and_access() {
    let mut files = setup();
    let mut net = Network::new(s("empty"));
    let r = run(&mut net, string_note(103, "did:sam:root:S#k#{\"x\": [1, 2]}#did:sam:app:A"), &mut files, 7).unwrap();
    assert!(matches!(r, Parcel::String(ref x) if x == "blessed assurance!"));
    let hash_key = kernel::hash::hash_string("did:sam:app:Adid:sam:root:S");
    let url = format!("./ipfs/files/{}.json", hash_key);
    assert_eq!(files.notices, vec![(hash_key.clone(), url.clone())]);
    assert_eq!(files.tables.get(&url).unwrap(), &vec![(s("k"), s("{\"x\":[1,2]}"))]);
    // the samaritan's table links to the shared file, the app's table to its hashed name
    // its other members are kept; non-string members of the hash table are dropped
    let doc = files.texts.get("./ipfs/S-doc.json").unwrap();
    assert_eq!(doc, &format!("{{\"hash_table\":{{\"did:sam:app:A\":\"{}\"}},\"name\":\"S\"}}", url));
    let app_table = files.tables.get("./ipfs/A.json").unwrap();
    let linked = format!("\"./ipfs/files/{}.json\"", kernel::hash::hash_string(&hash_key));
    assert_eq!(app_table, &vec![(s("did:sam:root:S"), linked)]);
    // reading needs an access record
    files.records.insert(s("./chain/DataRecord.json"), vec![(hash_key.clone(), Some(true), Some(url.clone()))]);
    let r = run(&mut net, string_note(104, "did:sam:root:S#k#did:sam:app:A"), &mut files, 7).unwrap();
    assert!(matches!(r, Parcel::String(ref x) if x == "{\"x\":[1,2]}"));
    // revoked access
    files.records.insert(s("./chain/DataRecord.json"), vec![(hash_key.clone(), Some(false), Some(url.clone()))]);
    let r = run(&mut net, string_note(104, "did:sam:root:S#k#did:sam:app:A"), &mut files, 7).unwrap();
    assert!(matches!(r, Parcel::String(ref x) if x == "{\"status\":\"revoked\"}"));
    let r = run(&mut net, string_note(105, "did:sam:root:S#k#did:sam:app:A"), &mut files, 7).unwrap();
    assert!(matches!(r, Parcel::Empty));
    // granted again: removal answers the value and empties the file
    files.records.insert(s("./chain/DataRecord.json"), vec![(hash_key.clone(), Some(true), Some(url.clone()))]);
    let r = run(&mut net, string_note(105, "did:sam:root:S#k#did:sam:app:A"), &mut files, 7).unwrap();
    assert!(matches!(r, Parcel::String(ref x) if x == "{\"x\":[1,2]}"));
    assert!(files.tables.get(&url).unwrap().is_empty());
}

#[test]
fn malformed_requests_fail() {
    let mut files = setup();
    let mut net = Network::new(s("empty"));
    assert!(run(&mut net, string_note(104, "#onlykey"), &mut files, 7).is_err());
    assert!(run(&mut net, string_note(103, "#k#not json#did:sam:app:A"), &mut files, 7).is_err());
    assert!(run(&mut net, string_note(103, "a#b#c"), &mut files, 7).is_err());
    assert!(run(&mut net, string_note(103, "#k#1"), &mut files, 7).is_err());
    // an unknown app fails: its table address cannot be resolved
    assert!(run(&mut net, string_note(104, "#k#did:sam:app:Z"), &mut files, 7).is_err());
    // a shared read without access record is answered with nothing
    files.records.insert(s("./chain/DataRecord.json"), vec![]);
    run(&mut net, string_note(103, "did:sam:root:S#k#1#did:sam:app:A"), &mut files, 7).unwrap();
    let r = run(&mut net, string_note(104, "did:sam:root:S#k#did:sam:app:A"), &mut files, 7).unwrap();
    assert!(matches!(r, Parcel::Empty));
    // a record without its flag fails
    let hash_key = kernel::hash::hash_string("did:sam:app:Adid:sam:root:S");
    files.records.insert(s("./chain/DataRecord.json"), vec![(hash_key, None, None)]);
    assert!(run(&mut net, string_note(104, "did:sam:root:S#k#did:sam:app:A"), &mut files, 7).is_err());
}

#[test]
fn immediate_answers() {
    let mut files = setup();
    let mut net = Network::new(s("empty"));
    assert!(matches!(run(&mut net, Note(101, Parcel::Empty), &mut files, 7), Ok(Parcel::Empty)));
    assert!(matches!(run(&mut net, Note(999, Parcel::Empty), &mut files, 7), Ok(Parcel::Empty)));
    assert!(matches!(run(&mut net, Note(104, Parcel::Empty), &mut files, 7), Ok(Parcel::Empty)));
    assert!(matches!(run(&mut net, Note(103, Parcel::Empty), &mut files, 7), Ok(Parcel::String(ref x)) if x == "blessed assurance!"));
}

#[test]
fn did_document_is_answered_as_json_string() {
    let mut files = setup();
    files.texts.insert(s("./ipfs/S-doc.json"), s("{\"a\":1}\n"));
    let mut net = Network::new(s("empty"));
    let r = run(&mut net, string_note(100, "did:sam:root:S"), &mut files, 7).unwrap();
    assert!(matches!(r, Parcel::String(ref x) if x == "\"{\\\"a\\\":1}\\n\""));
}

#[test]
fn app_locality_caches_address() {
    let mut files = setup();
    let mut net = Network::new(s("empty"));
    let r = run(&mut net, string_note(102, "did:sam:app:A"), &mut files, 33).unwrap();
    assert!(matches!(r, Parcel::Empty));
    assert_eq!(net.cached_app_uri("did:sam:app:A"), "./ipfs/A.json");
    assert_eq!(net.cached_app_uri("did:sam:app:B"), "");
    // cached: the apps root table is not needed any more
    files.tables.remove("./ipfs/apps.json");
    run(&mut net, string_note(104, "#x#did:sam:app:A"), &mut files, 34).unwrap();
}

#[test]
fn cache_holds_each_app_once_and_at_most_fifty() {
    let mut net = Network::new(s("empty"));
    assert!(net.set_cache_url(s("a"), s("u1"), 1));
    assert!(!net.set_cache_url(s("a"), s("u2"), 2));
    assert_eq!(net.cached_app_uri("a"), "u1");
    for i in 1..60 {
        net.set_cache_url(format!("app{}", i), s("u"), 3);
    }
    assert_eq!(net.url_cache_height, 50);
    assert_eq!(net.app_uri_cache.len(), 50);
    assert!(!net.set_cache_url(s("late"), s("u"), 4));
    assert_eq!(net.cached_app_uri("late"), "");
}

#[test]
fn parse_of_notes() {
    assert!(matches!(parse_request(string_note(104, "sam#k#app")),
        Request::GetDid { ref sam_did, ref key, ref app_did } if sam_did == "sam" && key == "k" && app_did == "app"));
    assert!(matches!(parse_request(string_note(105, "#k#app")),
        Request::DeleteApp { ref key, ref app_did } if key == "k" && app_did == "app"));
    assert!(matches!(parse_request(string_note(103, "#k# 1 #app")),
        Request::InsertApp { ref val, .. } if val == "1"));
    assert!(matches!(parse_request(string_note(103, "s#k# 1 #app")),
        Request::InsertDid { ref val, .. } if val == " 1 "));
    assert!(matches!(parse_request(string_note(102, "d")), Request::CreateAppLocality(ref d) if d == "d"));
    assert!(matches!(parse_request(Note(102, Parcel::Empty)), Request::Answer(Parcel::Empty)));
}

#[test]
fn unexpected_input_fails() {
    let mut net = Network::new(s("empty"));
    let (_, st) = net.step(Task::Done, Loaded::Nothing, 0);
    assert!(matches!(st.next, Next::Fail(_)));
    let (_, st) = net.step(Task::DocText, Loaded::Nothing, 0);
    assert!(matches!(st.next, Next::Fail(_)));
    net.sync_hash_table();
}

#[test]
fn reads_leave_files_unchanged() {
    let mut files = setup();
    let mut net = Network::new(s("empty"));
    run(&mut net, string_note(103, "#k#true#did:sam:app:A"), &mut files, 7).unwrap();
    run(&mut net, string_note(103, "did:sam:root:S#k#1#did:sam:app:A"), &mut files, 7).unwrap();
    let hash_key = kernel::hash::hash_string("did:sam:app:Adid:sam:root:S");
    let url = format!("./ipfs/files/{}.json", hash_key);
    files.records.insert(s("./chain/DataRecord.json"), vec![(hash_key, Some(true), Some(url))]);
    let before = files.clone();
    let r = run(&mut net, string_note(104, "#k#did:sam:app:A"), &mut files, 8).unwrap();
    assert!(matches!(r, Parcel::String(ref x) if x == "true"));
    let r = run(&mut net, string_note(104, "did:sam:root:S#k#did:sam:app:A"), &mut files, 8).unwrap();
    assert!(matches!(r, Parcel::String(ref x) if x == "1"));
    assert_eq!(before, files);
}

#[test]
fn unreadable_did_document_fails_shared_insert() {
    let mut files = setup();
    files.texts.insert(s("./ipfs/S-doc.json"), s("not json"));
    let mut net = Network::new(s("empty"));
    assert!(run(&mut net, string_note(103, "did:sam:root:S#k#1#did:sam:app:A"), &mut files, 7).is_err());
    files.texts.insert(s("./ipfs/S-doc.json"), s("[1]"));
    assert!(run(&mut net, string_note(103, "did:sam:root:S#k#1#did:sam:app:A"), &mut files, 7).is_err());
}
