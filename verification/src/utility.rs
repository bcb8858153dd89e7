use vstd::prelude::*;
use crate::hash::{hash_string, hash_text};
use crate::json::{
    doc_table_members, doc_with_table, hash_table_members, JsonShape, JsonShapeView, inserted_json, key_index, lemma_inserted_json, seq_insert,
    set_doc_table, table_json, table_json_text,
};
use crate::random::{alnum_text, random_alphanumeric};
use crate::table::Table;
use crate::text::{concat_str, split_on, split_str, str_eq};

verus! {

broadcast use vstd::string::group_string_axioms;

/// The view of a table of strings: each key to its value's characters.
pub open spec fn text_map(t: &Table<String>) -> Map<Seq<char>, Seq<char>> {
    t@.map_values(|v: String| v@)
}

/// The key under which a chain record keeps the address of a hash table.
pub open spec fn uri_key() -> Seq<char> {
    "uri"@
}

/// Chain record of the address of the DID root table, as the table updates name it.
pub open spec fn did_chain_path() -> Seq<char> {
    "./chain/HashTableUri.json"@
}

/// Chain record of the address of the DID root table, as the lookups name it.
pub open spec fn did_chain_lookup_path() -> Seq<char> {
    "./chain/HashtableUri.json"@
}

/// Chain record of the address of the apps root table, as the table updates name it.
pub open spec fn app_chain_path() -> Seq<char> {
    "./chain/AppHashTableUri.json"@
}

/// Chain record of the address of the apps root table, as the lookups name it.
pub open spec fn app_chain_lookup_path() -> Seq<char> {
    "./chain/AppHashtableUri.json"@
}

/// The keyring: hash of a seed phrase to the DID it unlocks.
pub open spec fn keyring_path() -> Seq<char> {
    "./chain/Keyring.json"@
}

/// The access records of the DID data files.
pub open spec fn data_record_path() -> Seq<char> {
    "./chain/DataRecord.json"@
}

pub fn did_chain_file() -> (r: &'static str)
    ensures
        r@ == did_chain_path(),
{
    "./chain/HashTableUri.json"
}

pub fn did_chain_lookup_file() -> (r: &'static str)
    ensures
        r@ == did_chain_lookup_path(),
{
    "./chain/HashtableUri.json"
}

pub fn app_chain_file() -> (r: &'static str)
    ensures
        r@ == app_chain_path(),
{
    "./chain/AppHashTableUri.json"
}

pub fn app_chain_lookup_file() -> (r: &'static str)
    ensures
        r@ == app_chain_lookup_path(),
{
    "./chain/AppHashtableUri.json"
}

pub fn keyring_file() -> (r: &'static str)
    ensures
        r@ == keyring_path(),
{
    "./chain/Keyring.json"
}

pub fn data_record_file() -> (r: &'static str)
    ensures
        r@ == data_record_path(),
{
    "./chain/DataRecord.json"
}

/// The address of a hash table, read from its chain record.
pub fn get_hash_table_addr(root_addr: &Table<String>) -> (r: String)
    requires
        root_addr@.contains_key(uri_key()),
    ensures
        r@ == text_map(root_addr)[uri_key()],
{
    let uri = "uri";
    proof { reveal_strlit("uri"); }
    root_addr.get(uri).unwrap().clone()
}

/// The address of an app's own hash table, from the apps root table.
pub fn get_app_htable_uri(apps_root_table: &Table<String>, did: &str) -> (r: String)
    requires
        apps_root_table@.contains_key(did@),
    ensures
        r@ == text_map(apps_root_table)[did@],
{
    apps_root_table.get(did).unwrap().clone()
}

/// The address of a samaritan's DID document, from the DID root table.
pub fn get_sam_ht_uri(did_root_table: &Table<String>, did: &str) -> (r: String)
    requires
        did_root_table@.contains_key(did@),
    ensures
        r@ == text_map(did_root_table)[did@],
{
    did_root_table.get(did).unwrap().clone()
}

/// What `authenticate` answers: whether the hash of the seed phrase is in the
/// keyring, as the text `true` or `false`, and the DID found there (or nothing).
pub open spec fn authenticate_spec(keyring: Map<Seq<char>, Seq<char>>, keys: Seq<char>) -> (Seq<char>, Seq<char>) {
    let seed = hash_text(keys);
    if keyring.contains_key(seed) {
        ("true"@, keyring[seed])
    } else {
        ("false"@, Seq::<char>::empty())
    }
}

/// Looks the seed phrase `keys` up in the keyring by its hash.
pub fn authenticate(keyring: &Table<String>, keys: &str) -> (r: (String, String))
    ensures
        (r.0@, r.1@) == authenticate_spec(text_map(keyring), keys@),
{
    let seed = hash_string(keys);
    match keyring.get(seed.as_str()) {
        Some(id) => ("true".to_owned(), id.clone()),
        None => ("false".to_owned(), String::new()),
    }
}

/// Whether the DID names an app: its third `:`-separated part is `app`.
pub fn is_app(did: &str) -> (r: bool)
    requires
        split_on(did@, ':').len() >= 3,
    ensures
        r == (split_on(did@, ':')[2] == "app"@),
{
    let parts = split_str(did, ':');
    proof {
        assert(parts@.map_values(|p: String| p@)[2] == parts@[2]@);
    }
    str_eq(parts[2].as_str(), "app")
}

/// `./ipfs/<name>.json`: where the node keeps the file called `name`.
pub open spec fn ipfs_path(name: Seq<char>) -> Seq<char> {
    "./ipfs/"@ + name + ".json"@
}

/// `./ipfs/<name>.json`.
pub fn ipfs_file(name: &str) -> (r: String)
    ensures
        r@ == ipfs_path(name@),
{
    let mut p = concat_str("./ipfs/", name);
    p.append(".json");
    p
}

/// The pseudo-CID and storage path of a document uploaded to the simulated IPFS:
/// the CID is the decimal FNV-1a hash of the document, the path `./ipfs/<cid>.json`.
/// The document itself is written to that path by the caller.
pub fn upload_to_ipfs_mimick(content: &str) -> (r: crate::kernel::ReturnData)
    ensures
        r.0@ == crate::kernel::ParcelView::Tuple1(hash_text(content@), ipfs_path(hash_text(content@))),
{
    let cid = hash_string(content);
    let path = ipfs_file(cid.as_str());
    crate::kernel::ReturnData(crate::kernel::Parcel::Tuple1(cid, path))
}

/// Records in the keyring that the seed phrase `seed` unlocks `did`.
pub fn update_keyring(keyring: &mut Table<String>, did: String, seed: &str)
    ensures
        text_map(final(keyring)) == text_map(old(keyring)).insert(hash_text(seed@), did@),
        table_json_text(final(keyring)) == inserted_json(old(keyring), hash_text(seed@), did@),
{
    let key = hash_string(seed);
    let ghost d = did;
    let _ = keyring.insert(key, did);
    proof {
        assert(text_map(keyring) =~= text_map(old(keyring)).insert(hash_text(seed@), did@));
        lemma_inserted_json(old(keyring), keyring, hash_text(seed@), d);
    }
}

/// Points a chain record at the hash table stored at `uri`.
pub fn set_hash_table_uri(chain_record: &mut Table<String>, uri: String)
    ensures
        text_map(final(chain_record)) == text_map(old(chain_record)).insert(uri_key(), uri@),
        table_json_text(final(chain_record)) == inserted_json(old(chain_record), uri_key(), uri@),
{
    let ghost u = uri;
    let _ = chain_record.insert("uri".to_owned(), uri);
    proof {
        reveal_strlit("uri");
        assert(text_map(chain_record) =~= text_map(old(chain_record)).insert(uri_key(), uri@));
        lemma_inserted_json(old(chain_record), chain_record, uri_key(), u);
    }
}

/// The address under which a hash table is stored after an update: the
/// `./ipfs/` path named by the hash of its JSON text.
pub fn update_hash_table_uri(table: &Table<String>) -> (r: String)
    ensures
        r@ == ipfs_path(hash_text(table_json_text(table))),
{
    let text = table_json(table);
    let h = hash_string(text.as_str());
    ipfs_file(h.as_str())
}

/// The string members of a JSON object given as `(key, string value if it is one)`, in order.
pub open spec fn string_members(entries: Seq<(Seq<char>, Option<Seq<char>>)>) -> Map<Seq<char>, Seq<char>>
    decreases entries.len(),
{
    if entries.len() == 0 {
        Map::empty()
    } else {
        let rest = string_members(entries.drop_last());
        match entries.last().1 {
            Some(v) => rest.insert(entries.last().0, v),
            None => rest,
        }
    }
}

/// The keys and values, in order, of the table of the string members of a
/// JSON object whose members are given in order.
pub open spec fn member_seqs(entries: Seq<(Seq<char>, Option<Seq<char>>)>) -> (Seq<Seq<char>>, Seq<Seq<char>>)
    decreases entries.len(),
{
    if entries.len() == 0 {
        (Seq::empty(), Seq::empty())
    } else {
        let p = member_seqs(entries.drop_last());
        match entries.last().1 {
            Some(v) => seq_insert(p.0, p.1, entries.last().0, v),
            None => p,
        }
    }
}

/// The entries of a JSON object by their characters.
pub open spec fn entries_view(entries: Seq<(String, Option<String>)>) -> Seq<(Seq<char>, Option<Seq<char>>)> {
    entries.map_values(|e: (String, Option<String>)| (e.0@, match e.1 { Some(v) => Some(v@), None => None }))
}

/// The members of a JSON value that a table of strings is read from: those of
/// an object, and none for any other value.
pub open spec fn shape_members(v: JsonShapeView) -> Seq<(Seq<char>, Option<Seq<char>>)> {
    match v {
        JsonShapeView::Object(e) => e,
        _ => Seq::empty(),
    }
}

/// The table of the string members of a JSON value: for an object, each
/// member whose value is a string, in order; for any other value, no entry.
pub fn convert_to_hashmap(json: &JsonShape) -> (r: Table<String>)
    ensures
        text_map(&r) == string_members(shape_members(json@)),
        (r.key_seq(), r.val_seq().map_values(|v: String| v@)) == member_seqs(shape_members(json@)),
        !(json@ is Object) ==> text_map(&r) == Map::<Seq<char>, Seq<char>>::empty() && r.key_seq().len() == 0,
{
    match json {
        JsonShape::Object(entries) => object_string_members(entries),
        _ => {
            let t: Table<String> = Table::new();
            assert(text_map(&t) =~= Map::<Seq<char>, Seq<char>>::empty());
            assert(t.val_seq().map_values(|v: String| v@) =~= Seq::<Seq<char>>::empty());
            t
        },
    }
}

/// The table of the string members of a JSON object, whose members are given
/// in order, each with its value if that value is a string.
fn object_string_members(entries: &Vec<(String, Option<String>)>) -> (r: Table<String>)
    ensures
        text_map(&r) == string_members(entries_view(entries@)),
        (r.key_seq(), r.val_seq().map_values(|v: String| v@)) == member_seqs(entries_view(entries@)),
{
    let mut map: Table<String> = Table::new();
    let n = entries.len();
    let ghost ev = entries_view(entries@);
    let mut i: usize = 0;
    assert(ev.subrange(0, 0) =~= Seq::<(Seq<char>, Option<Seq<char>>)>::empty());
    assert(text_map(&map) =~= Map::<Seq<char>, Seq<char>>::empty());
    assert(map.val_seq().map_values(|v: String| v@) =~= Seq::<Seq<char>>::empty());
    while i < n
        invariant
            n == entries@.len(),
            ev == entries_view(entries@),
            i <= n,
            text_map(&map) == string_members(ev.subrange(0, i as int)),
            (map.key_seq(), map.val_seq().map_values(|v: String| v@)) == member_seqs(ev.subrange(0, i as int)),
        decreases n - i,
    {
        let ghost before = map;
        let e = &entries[i];
        match &e.1 {
            Some(v) => {
                let k = e.0.clone();
                let vv = v.clone();
                let _ = map.insert(k, vv);
                proof {
                    let ks = before.key_seq();
                    let vs = before.val_seq().map_values(|v: String| v@);
                    if ks.contains(e.0@) {
                        let p = before.position(e.0@);
                        let j = key_index(ks, e.0@);
                        assert(ks[j] == e.0@);
                        assert(p == j);
                        assert(map.val_seq().map_values(|v: String| v@) =~= vs.update(j, v@));
                    } else {
                        assert(map.val_seq().map_values(|v: String| v@) =~= vs.push(v@));
                    }
                }
            },
            None => {},
        }
        proof {
            let s1 = ev.subrange(0, i + 1);
            assert(s1.drop_last() =~= ev.subrange(0, i as int));
            assert(s1.last() == ev[i as int]);
            assert(text_map(&map) =~= string_members(s1));
        }
        i = i + 1;
    }
    assert(ev.subrange(0, n as int) =~= ev);
    map
}

/// The table of the string members of a DID document's `hash_table` object:
/// empty when that member is missing or not an object; `None` when the
/// document is not JSON.
pub fn get_sam_hashtable(doc: &str) -> (r: Option<Table<String>>)
    ensures
        match r {
            Some(t) => doc_table_members(doc@) matches Some(v)
                && text_map(&t) == string_members(shape_members(v))
                && (t.key_seq(), t.val_seq().map_values(|x: String| x@)) == member_seqs(shape_members(v)),
            None => doc_table_members(doc@) is None,
        },
        match doc_table_members(doc@) {
            Some(JsonShapeView::Object(_)) | None => true,
            Some(_) => r is Some && text_map(&r->Some_0) == Map::<Seq<char>, Seq<char>>::empty(),
        },
{
    match hash_table_members(doc) {
        Some(m) => Some(convert_to_hashmap(&m)),
        None => None,
    }
}

/// The DID document with its `hash_table` member replaced by the table, as
/// the text to write back; `None` where the document cannot take it.
pub fn save_sam_htable(table: &Table<String>, doc: &str) -> (r: Option<String>)
    ensures
        match r {
            Some(t) => doc_with_table(doc@, table_json_text(table)) == Some(t@),
            None => doc_with_table(doc@, table_json_text(table)) is None,
        },
{
    let text = table_json(table);
    set_doc_table(doc, text.as_str())
}

/// Draws a random suffix of `n` letters and digits and tells whether the
/// table leaves it free (holds no key equal to it).
pub fn get_random_str(n: u32, taken: &Table<String>) -> (r: (String, bool))
    ensures
        alnum_text(r.0@, n as nat),
        r.1 == !taken@.contains_key(r.0@),
{
    let s = random_alphanumeric(n);
    let free = !taken.contains_key(s.as_str());
    (s, free)
}

} // verus!
