use kernel::hash::{compute_hash, hash_string};
use kernel::json::table_json;
use kernel::utility::{get_sam_hashtable, save_sam_htable};
use kernel::table::Table;
use kernel::text::{chars_of, concat_str, decimal_string, split_first, split_str, str_eq};

#[test]
fn fnv_of_empty_input_is_offset_basis() {
    assert_eq!(compute_hash(b""), 0xcbf29ce484222325);
}

#[test]
fn fnv_of_known_inputs() {
    assert_eq!(compute_hash(b"a"), 0xaf63dc4c8601ec8c);
    assert_eq!(compute_hash(b"foobar"), 0x85944171f73967e8);
}

#[test]
fn hash_string_is_decimal_fnv() {
    assert_eq!(hash_string(""), "14695981039346656037");
    assert_eq!(hash_string("a"), "12638187200555641996");
}

#[test]
fn decimal_notation() {
    assert_eq!(decimal_string(0), "0");
    assert_eq!(decimal_string(7), "7");
    assert_eq!(decimal_string(10), "10");
    assert_eq!(decimal_string(12345), "12345");
    assert_eq!(decimal_string(u64::MAX), "18446744073709551615");
}

#[test]
fn string_equality_and_chars() {
    assert!(str_eq("did:sam", "did:sam"));
    assert!(!str_eq("did:sam", "did:sa"));
    assert!(!str_eq("é", "e"));
    assert_eq!(chars_of("aé:"), vec!['a', 'é', ':']);
    assert_eq!(concat_str("ab", "cd"), "abcd");
}

#[test]
fn split_like_str_split() {
    assert_eq!(split_str("did:sam:app:x", ':'), vec!["did", "sam", "app", "x"]);
    assert_eq!(split_str("", ':'), vec![""]);
    assert_eq!(split_str("a:", ':'), vec!["a", ""]);
    assert_eq!(split_str("#k#v#a", '#'), vec!["", "k", "v", "a"]);
    for s in ["", "a", "::", "a::b", "x#y#", "é:ü"] {
        let expected: Vec<String> = s.split(':').map(|p| p.to_string()).collect();
        assert_eq!(split_str(s, ':'), expected);
    }
}

#[test]
fn split_first_like_splitn_two() {
    assert_eq!(split_first("~1#doc#more", '#'), ("~1".to_string(), Some("doc#more".to_string())));
    assert_eq!(split_first("~2", '#'), ("~2".to_string(), None));
    assert_eq!(split_first("#", '#'), ("".to_string(), Some("".to_string())));
}

#[test]
fn json_string_escapes() {
    let mut t: Table<String> = Table::new();
    t.insert("plain".to_string(), "a\"b\\c\n\t\r\u{8}\u{c}\u{1}\u{1f}/é".to_string());
    assert_eq!(table_json(&t), "{\"plain\":\"a\\\"b\\\\c\\n\\t\\r\\b\\f\\u0001\\u001f/é\"}");
}

#[test]
fn table_json_in_table_order() {
    let mut t: Table<String> = Table::new();
    assert_eq!(table_json(&t), "{}");
    t.insert("b".to_string(), "1".to_string());
    t.insert("a".to_string(), "q\"".to_string());
    assert_eq!(table_json(&t), "{\"b\":\"1\",\"a\":\"q\\\"\"}");
}

#[test]
fn members_of_document_hash_table() {
    let t = get_sam_hashtable("{\"hash_table\":{\"b\":\"x\",\"a\":1,\"0\":\"z\"},\"other\":2}").unwrap();
    assert_eq!(t.len(), 2);
    assert_eq!(t.key_at(0), "0");
    assert_eq!(t.key_at(1), "b");
    assert_eq!(get_sam_hashtable("{\"hash_table\":5}").unwrap().len(), 0);
    assert_eq!(get_sam_hashtable("{}").unwrap().len(), 0);
    assert!(get_sam_hashtable("not json").is_none());
}

#[test]
fn document_with_new_hash_table() {
    let mut t: Table<String> = Table::new();
    t.insert("k".to_string(), "v".to_string());
    assert_eq!(save_sam_htable(&t, "{\"z\":1,\"hash_table\":{}}"), Some("{\"hash_table\":{\"k\":\"v\"},\"z\":1}".to_string()));
    let empty: Table<String> = Table::new();
    assert_eq!(save_sam_htable(&empty, "null"), Some("{\"hash_table\":{}}".to_string()));
    assert_eq!(save_sam_htable(&empty, "[1]"), None);
    assert_eq!(save_sam_htable(&empty, "x"), None);
}
