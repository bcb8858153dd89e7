use kernel::kernel::Parcel;
use kernel::json::JsonShape;
use kernel::table::Table;
use kernel::utility::{
    authenticate, convert_to_hashmap, get_app_htable_uri, get_hash_table_addr, get_random_str, get_sam_hashtable, get_sam_ht_uri,
    is_app, save_sam_htable,
    set_hash_table_uri, update_hash_table_uri, update_keyring, upload_to_ipfs_mimick,
};

fn t(entries: &[(&str, &str)]) -> Table<String> {
    let mut t = Table::new();
    for (k, v) in entries {
        t.insert(k.to_string(), v.to_string());
    }
    t
}

#[test]
fn authenticate_by_seed_hash() {
    let mut keyring = t(&[]);
    let (e, d) = authenticate(&keyring, "one two");
    assert_eq!((e.as_str(), d.as_str()), ("false", ""));
    update_keyring(&mut keyring, "did:sam:root:abc".to_string(), "one two");
    assert_eq!(keyring.key_at(0), &kernel::hash::hash_string("one two"));
    let (e, d) = authenticate(&keyring, "one two");
    assert_eq!((e.as_str(), d.as_str()), ("true", "did:sam:root:abc"));
    let (e, _) = authenticate(&keyring, "one three");
    assert_eq!(e, "false");
}

#[test]
fn is_app_reads_third_part() {
    assert!(is_app("did:sam:app:xyz"));
    assert!(!is_app("did:sam:root:xyz"));
    assert!(is_app("a:b:app"));
    assert!(!is_app("a:b:apps"));
}

#[test]
fn lookups_in_root_tables() {
    let chain = t(&[("uri", "./ipfs/root.json")]);
    assert_eq!(get_hash_table_addr(&chain), "./ipfs/root.json");
    let apps = t(&[("did:sam:app:A", "./ipfs/A.json")]);
    assert_eq!(get_app_htable_uri(&apps, "did:sam:app:A"), "./ipfs/A.json");
    let dids = t(&[("did:sam:root:S", "./ipfs/S.json")]);
    assert_eq!(get_sam_ht_uri(&dids, "did:sam:root:S"), "./ipfs/S.json");
}

#[test]
fn upload_names_document_by_hash() {
    let r = upload_to_ipfs_mimick("hello");
    let h = kernel::hash::hash_string("hello");
    match r.0 {
        Parcel::Tuple1(cid, path) => {
            assert_eq!(cid, h);
            assert_eq!(path, format!("./ipfs/{}.json", h));
        }
        _ => panic!("expected a pair"),
    }
}

#[test]
fn chain_record_and_moved_table() {
    let mut chain = t(&[("uri", "old"), ("other", "x")]);
    set_hash_table_uri(&mut chain, "new".to_string());
    assert_eq!(chain.get("uri"), Some(&"new".to_string()));
    assert_eq!(chain.get("other"), Some(&"x".to_string()));
    let table = t(&[("k", "v")]);
    let h = kernel::hash::hash_string("{\"k\":\"v\"}");
    assert_eq!(update_hash_table_uri(&table), format!("./ipfs/{}.json", h));
}

#[test]
fn string_members_of_object() {
    let entries = vec![
        ("a".to_string(), Some("x".to_string())),
        ("b".to_string(), None),
        ("c".to_string(), Some("z".to_string())),
    ];
    let m = convert_to_hashmap(&JsonShape::Object(entries));
    assert_eq!(m.len(), 2);
    assert_eq!(m.get("a"), Some(&"x".to_string()));
    assert_eq!(m.get("b"), None);
    assert_eq!(m.get("c"), Some(&"z".to_string()));
}

#[test]
fn random_suffix_is_alphanumeric_and_checked() {
    let taken = t(&[]);
    let (s, free) = get_random_str(32, &taken);
    assert_eq!(s.chars().count(), 32);
    assert!(s.chars().all(|c| c.is_ascii_alphanumeric()));
    assert!(free);
    let taken = t(&[(s.as_str(), "x")]);
    // a new draw is free unless it repeats the taken one
    let (s2, free2) = get_random_str(32, &taken);
    assert_eq!(free2, s2 != s);
    let (empty, _) = get_random_str(0, &taken);
    assert_eq!(empty, "");
}

#[test]
fn sam_hashtable_keeps_string_members() {
    let table = get_sam_hashtable("{\"name\":\"S\",\"hash_table\":{\"b\":\"x\",\"a\":1,\"c\":\"y\"}}").unwrap();
    assert_eq!(table.len(), 2);
    assert_eq!(table.get("b"), Some(&"x".to_string()));
    assert_eq!(table.get("c"), Some(&"y".to_string()));
    assert_eq!(table.get("a"), None);
    assert_eq!(get_sam_hashtable("{\"name\":\"S\"}").unwrap().len(), 0);
    assert!(get_sam_hashtable("{").is_none());
}

#[test]
fn save_sam_htable_replaces_only_the_table() {
    let doc = "{\"name\":\"S\",\"hash_table\":{\"old\":\"v\"}}";
    let written = save_sam_htable(&t(&[("k", "u")]), doc).unwrap();
    assert_eq!(written, "{\"hash_table\":{\"k\":\"u\"},\"name\":\"S\"}");
    assert_eq!(get_sam_hashtable(&written).unwrap().get("k"), Some(&"u".to_string()));
    assert!(save_sam_htable(&t(&[]), "[1]").is_none());
}

#[test]
fn non_objects_give_empty_tables() {
    for v in [JsonShape::Null, JsonShape::Bool, JsonShape::Number, JsonShape::Str, JsonShape::Array] {
        assert_eq!(convert_to_hashmap(&v).len(), 0);
    }
    assert_eq!(get_sam_hashtable("{\"hash_table\":1}").unwrap().len(), 0);
    assert_eq!(get_sam_hashtable("{\"hash_table\":\"x\"}").unwrap().len(), 0);
    assert_eq!(get_sam_hashtable("{\"hash_table\":[\"a\"]}").unwrap().len(), 0);
    assert_eq!(get_sam_hashtable("[]").unwrap().len(), 0);
}
