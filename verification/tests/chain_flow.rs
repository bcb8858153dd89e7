use std::collections::HashMap;

use kernel::chain::{create_api_keys_mimick, get_did_and_keys_mimick, ChainClient, Draw, RegTask};
use kernel::kernel::{Note, Parcel};
use kernel::step::{Effect, Fetch, Loaded, Next};
use kernel::table::Table;
use kernel::utility::{authenticate, is_app};

#[derive(Default)]
struct Files {
    tables: HashMap<String, Vec<(String, String)>>,
    created: HashMap<String, String>,
}

fn table_of(entries: &[(String, String)]) -> Table<String> {
    let mut t = Table::new();
    for (k, v) in entries {
        t.insert(k.clone(), v.clone());
    }
    t
}

fn entries_of(t: &Table<String>) -> Vec<(String, String)> {
    (0..t.len()).map(|i| (t.key_at(i).clone(), t.value_at(i).clone())).collect()
}

fn apply(files: &mut Files, e: Effect) {
    match e {
        Effect::WriteStrings(p, t) | Effect::WriteValues(p, t) => {
            files.tables.insert(p, entries_of(&t));
        }
        Effect::CreateFile(p, c) => {
            assert!(!files.created.contains_key(&p));
            files.created.insert(p, c);
        }
        Effect::Rename(a, b) => {
            let t = files.tables.remove(&a).unwrap();
            files.tables.insert(b, t);
        }
        other => panic!("unexpected effect {:?}", other),
    }
}

fn s(x: &str) -> String {
    x.to_string()
}

fn setup() -> Files {
    let mut f = Files::default();
    for (chain, table) in [
        ("./chain/HashTableUri.json", "./ipfs/dids.json"),
        ("./chain/HashtableUri.json", "./ipfs/dids.json"),
        ("./chain/AppHashTableUri.json", "./ipfs/apps.json"),
    ] {
        f.tables.insert(s(chain), vec![(s("uri"), s(table))]);
    }
    f.tables.insert(s("./ipfs/dids.json"), vec![]);
    f.tables.insert(s("./ipfs/apps.json"), vec![]);
    f.tables.insert(s("./chain/Keyring.json"), vec![]);
    f
}

/// Runs a registration with the client's own draws.
fn run(client: &ChainClient, start: (RegTask, kernel::step::Step), files: &mut Files) -> Result<Parcel, String> {
    let (mut task, mut step) = start;
    loop {
        for e in step.effects {
            apply(files, e);
        }
        match step.next {
            Next::Reply(p) => return Ok(p),
            Next::Fail(m) => return Err(m),
            Next::Fetch(Fetch::Strings(p)) => {
                let input = Loaded::Strings(table_of(files.tables.get(&p).expect("missing file")));
                let (t, st) = client.step(task, input);
                task = t;
                step = st;
            }
            Next::Fetch(other) => panic!("unexpected fetch {:?}", other),
        }
    }
}

#[test]
fn samaritan_registration() {
    let mut files = setup();
    let client = ChainClient::new();
    let r = run(&client, client.handle(Note(101, Parcel::String(s("{\"doc\":1}")))), &mut files).unwrap();
    let (did, seed) = match r {
        Parcel::Tuple1(d, k) => (d, k),
        _ => panic!("expected DID and keys"),
    };
    assert!(did.starts_with("did:sam:root:"));
    assert_eq!(did.len(), "did:sam:root:".len() + 32);
    assert!(!is_app(&did));
    assert_eq!(seed.split(' ').count(), 12);
    assert!(seed.split(' ').all(|w| !w.is_empty()));
    // the document was stored under its hash
    let doc_path = format!("./ipfs/{}.json", kernel::hash::hash_string("{\"doc\":1}"));
    assert_eq!(files.created.get(&doc_path).unwrap(), "{\"doc\":1}");
    // the root table moved to the address named by its hash, and the chain points there
    let moved = files.tables.get("./chain/HashTableUri.json").unwrap()[0].1.clone();
    let entries = vec![(did.clone(), doc_path.clone())];
    assert_eq!(files.tables.get(&moved).unwrap(), &entries);
    let text = kernel::json::table_json(&table_of(&entries));
    assert_eq!(moved, format!("./ipfs/{}.json", kernel::hash::hash_string(&text)));
    assert!(files.tables.get("./ipfs/dids.json").is_none());
    // the seed phrase authenticates the DID
    let keyring = table_of(files.tables.get("./chain/Keyring.json").unwrap());
    let (e, d) = authenticate(&keyring, &seed);
    assert_eq!((e.as_str(), d.as_str()), ("true", did.as_str()));
}

#[test]
fn app_registration() {
    let mut files = setup();
    let client = ChainClient::new();
    let r = run(&client, create_api_keys_mimick(), &mut files).unwrap();
    let (did, seed) = match r {
        Parcel::Tuple1(d, k) => (d, k),
        _ => panic!("expected DID and keys"),
    };
    assert!(did.starts_with("did:sam:app:"));
    assert!(is_app(&did));
    let suffix = &did["did:sam:app:".len()..];
    assert_eq!(suffix.len(), 48);
    assert!(suffix.chars().all(|c| c.is_ascii_alphanumeric()));
    assert_eq!(seed.split(' ').count(), 12);
    assert!(seed.split(' ').all(|w| !w.is_empty()));
    assert_eq!(files.created.get(&format!("./ipfs/{}.json", suffix)).unwrap(), "{}");
    let keyring = table_of(files.tables.get("./chain/Keyring.json").unwrap());
    assert_eq!(authenticate(&keyring, &seed).1, did);
}

#[test]
fn taken_suffix_is_drawn_again_with_user_length() {
    let client = ChainClient::new();
    let (task, _) = get_did_and_keys_mimick("doc");
    let (task, _) = client.advance(task, Loaded::Strings(table_of(&[(s("uri"), s("./t.json"))])), Draw { suffix: s(""), words: s("") });
    let taken = table_of(&[(s("abc"), s("x"))]);
    let (task, step) = client.advance(task, Loaded::Strings(taken), Draw { suffix: s("abc"), words: s("") });
    assert!(matches!(task, RegTask::Suffix(_, 32)));
    assert!(matches!(step.next, Next::Fetch(Fetch::Strings(ref p)) if p == "./chain/HashTableUri.json"));
    let (task, _) = client.advance(task, Loaded::Strings(table_of(&[(s("uri"), s("./t.json"))])), Draw { suffix: s(""), words: s("") });
    let (task, step) = client.advance(task, Loaded::Strings(table_of(&[])), Draw { suffix: s("abc"), words: s("") });
    assert!(matches!(task, RegTask::UserChain(ref d, _) if d == "did:sam:root:abc"));
    assert_eq!(step.effects.len(), 1);
}

#[test]
fn other_notes_get_empty_answer() {
    let client = ChainClient::new();
    let (task, step) = client.handle(Note(102, Parcel::Empty));
    assert!(matches!(task, RegTask::Done));
    assert!(matches!(step.next, Next::Reply(Parcel::Empty)));
    let (_, step) = client.handle(Note(101, Parcel::Empty));
    assert!(matches!(step.next, Next::Reply(Parcel::Empty)));
}

#[test]
fn missing_chain_record_fails() {
    let client = ChainClient::new();
    let (task, _) = get_did_and_keys_mimick("doc");
    let (_, step) = client.advance(task, Loaded::Strings(table_of(&[])), Draw { suffix: s(""), words: s("") });
    assert!(matches!(step.next, Next::Fail(_)));
}
