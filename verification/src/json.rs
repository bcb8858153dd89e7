use vstd::prelude::*;
use crate::table::Table;
use crate::text::digit_char;
use crate::utility::entries_view;
use serde_json::Value;

verus! {

/// A lower-case hexadecimal digit.
pub open spec fn hex_digit(d: nat) -> char {
    if d < 10 {
        digit_char(d)
    } else if d == 10 {
        'a'
    } else if d == 11 {
        'b'
    } else if d == 12 {
        'c'
    } else if d == 13 {
        'd'
    } else if d == 14 {
        'e'
    } else {
        'f'
    }
}

/// How `serde_json` writes one character inside a string literal.
pub open spec fn json_escape(c: char) -> Seq<char> {
    if c == '"' {
        seq!['\\', '"']
    } else if c == '\\' {
        seq!['\\', '\\']
    } else if c == '\u{8}' {
        seq!['\\', 'b']
    } else if c == '\u{c}' {
        seq!['\\', 'f']
    } else if c == '\n' {
        seq!['\\', 'n']
    } else if c == '\r' {
        seq!['\\', 'r']
    } else if c == '\t' {
        seq!['\\', 't']
    } else if (c as u32) < 0x20 {
        seq!['\\', 'u', '0', '0', hex_digit((c as u32 / 16) as nat), hex_digit((c as u32 % 16) as nat)]
    } else {
        seq![c]
    }
}

/// The escaped body of a JSON string literal.
pub open spec fn json_escaped(s: Seq<char>) -> Seq<char>
    decreases s.len(),
{
    if s.len() == 0 {
        Seq::<char>::empty()
    } else {
        json_escaped(s.drop_last()) + json_escape(s.last())
    }
}

/// The JSON string literal of `s`: quotes around its escaped characters.
pub open spec fn json_string(s: Seq<char>) -> Seq<char> {
    seq!['"'] + json_escaped(s) + seq!['"']
}

/// Writes `s` as a JSON string literal with `serde_json::to_string`.
///
/// Trusted: the contract states `serde_json`'s escaping of string contents,
/// as its `ESCAPE` table and `write_char_escape` show: `"` and `\` and the
/// control characters below 0x20 are escaped (`\b \t \n \f \r` by letter,
/// the others as `\u00xx` in lower-case hex), every other character is written
/// as it is. Serialising a `str` into a `String` cannot fail.
#[verifier::external_body]
pub(crate) fn quote_json(s: &str) -> (r: String)
    ensures
        r@ == json_string(s@),
{
    serde_json::to_string(s).unwrap()
}

/// What `serde_json` writes back for the JSON text `text` after parsing it
/// into a `serde_json::Value`, or nothing when the text is not JSON.
pub uninterp spec fn json_canonical(text: Seq<char>) -> Option<Seq<char>>;

/// Parses `text` into a `serde_json::Value` with `serde_json::from_str` and
/// writes that value back compactly with its `Display`, as the node does with
/// every value it stores.
///
/// Trusted: the contract names the result, a function of the text alone
/// (`None` exactly when `serde_json::from_str` refuses the text); it says
/// nothing more of what the text becomes.
#[verifier::external_body]
pub(crate) fn canonical_json(text: &str) -> (r: Option<String>)
    ensures
        match r {
            Some(c) => json_canonical(text@) == Some(c@),
            None => json_canonical(text@) is None,
        },
{
    match serde_json::from_str::<serde_json::Value>(text) {
        Ok(v) => Some(v.to_string()),
        Err(_) => None,
    }
}

/// One `"key":"value"` member of a JSON object of strings.
pub open spec fn json_member(k: Seq<char>, v: Seq<char>) -> Seq<char> {
    json_string(k) + seq![':'] + json_string(v)
}

/// The members of a JSON object of strings, separated by commas.
pub open spec fn json_members(ks: Seq<Seq<char>>, vs: Seq<Seq<char>>) -> Seq<char>
    decreases ks.len(),
{
    if ks.len() == 0 {
        Seq::<char>::empty()
    } else if ks.len() == 1 {
        json_member(ks[0], vs[0])
    } else {
        json_members(ks.drop_last(), vs.drop_last()) + seq![','] + json_member(ks.last(), vs.last())
    }
}

/// The compact JSON object with the given keys and string values, in that order.
pub open spec fn json_object(ks: Seq<Seq<char>>, vs: Seq<Seq<char>>) -> Seq<char> {
    seq!['{'] + json_members(ks, vs) + seq!['}']
}

/// The compact JSON text of a table of strings, its entries in table order.
pub open spec fn table_json_text(t: &Table<String>) -> Seq<char> {
    json_object(t.key_seq(), t.val_seq().map_values(|v: String| v@))
}

/// Writes a table of strings as a compact JSON object, as `serde_json::to_string`
/// writes a map that yields the entries in table order.
pub fn table_json(t: &Table<String>) -> (r: String)
    ensures
        r@ == table_json_text(t),
{
    let n = t.len();
    let ghost ks = t.key_seq();
    let ghost vs = t.val_seq().map_values(|v: String| v@);
    let mut body = String::new();
    let mut i: usize = 0;
    assert(ks.subrange(0, 0) =~= Seq::<Seq<char>>::empty());
    while i < n
        invariant
            n == ks.len(),
            ks == t.key_seq(),
            vs == t.val_seq().map_values(|v: String| v@),
            ks.len() == vs.len(),
            i <= n,
            body@ == json_members(ks.subrange(0, i as int), vs.subrange(0, i as int)),
        decreases n - i,
    {
        if i > 0 {
            body.append(",");
        }
        let k = quote_json(t.key_at(i).as_str());
        let v = quote_json(t.value_at(i).as_str());
        body.append(k.as_str());
        body.append(":");
        body.append(v.as_str());
        proof {
            reveal_strlit(",");
            reveal_strlit(":");
            let ks1 = ks.subrange(0, i + 1);
            let vs1 = vs.subrange(0, i + 1);
            assert(ks1.drop_last() =~= ks.subrange(0, i as int));
            assert(vs1.drop_last() =~= vs.subrange(0, i as int));
            assert(ks1.last() == ks[i as int]);
            assert(vs1.last() == vs[i as int]);
            if i == 0 {
                assert(body@ =~= json_member(ks[0], vs[0]));
            } else {
                assert(body@ =~= json_members(ks.subrange(0, i as int), vs.subrange(0, i as int))
                    + seq![','] + json_member(ks[i as int], vs[i as int]));
            }
        }
        i = i + 1;
    }
    let mut out = String::new();
    out.append("{");
    out.append(body.as_str());
    out.append("}");
    proof {
        reveal_strlit("{");
        reveal_strlit("}");
        assert(ks.subrange(0, n as int) =~= ks);
        assert(vs.subrange(0, n as int) =~= vs);
        assert(out@ =~= json_object(ks, vs));
    }
    out
}

/// The JSON text of a table of strings after `k` is set to `v` in it: a
/// present key keeps its place, a new one comes last.
pub open spec fn inserted_json(t: &Table<String>, k: Seq<char>, v: Seq<char>) -> Seq<char> {
    let ks = t.key_seq();
    let vs = t.val_seq().map_values(|s: String| s@);
    if t@.contains_key(k) {
        json_object(ks, vs.update(t.position(k), v))
    } else {
        json_object(ks.push(k), vs.push(v))
    }
}

/// The JSON text of a table after an insert, from what `Table::insert` ensures.
pub proof fn lemma_inserted_json(old: &Table<String>, new: &Table<String>, k: Seq<char>, v: String)
    requires
        old.key_seq().len() == old.val_seq().len(),
        old@.contains_key(k) ==> {
            &&& new.key_seq() == old.key_seq()
            &&& 0 <= old.position(k) < old.key_seq().len()
            &&& new.val_seq() == old.val_seq().update(old.position(k), v)
        },
        !old@.contains_key(k) ==> {
            &&& new.key_seq() == old.key_seq().push(k)
            &&& new.val_seq() == old.val_seq().push(v)
        },
    ensures
        table_json_text(new) == inserted_json(old, k, v@),
{
    let vs = old.val_seq().map_values(|s: String| s@);
    if old@.contains_key(k) {
        assert(new.val_seq().map_values(|s: String| s@) =~= vs.update(old.position(k), v@));
    } else {
        assert(new.val_seq().map_values(|s: String| s@) =~= vs.push(v@));
    }
}

/// The position of `k` in a sequence of keys that holds it.
pub open spec fn key_index(ks: Seq<Seq<char>>, k: Seq<char>) -> int {
    choose|i: int| 0 <= i < ks.len() && ks[i] == k
}

/// Keys and values in order after `k` is set to `v`: a present key keeps
/// its place, a new one comes last.
pub open spec fn seq_insert(ks: Seq<Seq<char>>, vs: Seq<Seq<char>>, k: Seq<char>, v: Seq<char>)
    -> (Seq<Seq<char>>, Seq<Seq<char>>)
{
    if ks.contains(k) {
        (ks, vs.update(key_index(ks, k), v))
    } else {
        (ks.push(k), vs.push(v))
    }
}

/// A JSON value as far as a table of strings is read out of it: its kind,
/// and for an object its members in order, each with its value if that
/// value is a string.
#[derive(Debug)]
pub enum JsonShape {
    Null,
    Bool,
    Number,
    Str,
    Array,
    Object(Vec<(String, Option<String>)>),
}

pub enum JsonShapeView {
    Null,
    Bool,
    Number,
    Str,
    Array,
    Object(Seq<(Seq<char>, Option<Seq<char>>)>),
}

impl View for JsonShape {
    type V = JsonShapeView;

    open spec fn view(&self) -> JsonShapeView {
        match self {
            JsonShape::Null => JsonShapeView::Null,
            JsonShape::Bool => JsonShapeView::Bool,
            JsonShape::Number => JsonShapeView::Number,
            JsonShape::Str => JsonShapeView::Str,
            JsonShape::Array => JsonShapeView::Array,
            JsonShape::Object(e) => JsonShapeView::Object(entries_view(e@)),
        }
    }
}

/// The `hash_table` member of a DID document as `serde_json` reads it
/// (`Null` where the member is missing); nothing when the document is not JSON.
pub uninterp spec fn doc_table_members(doc: Seq<char>) -> Option<JsonShapeView>;

/// Reads the `hash_table` member of a DID document.
///
/// Trusted: the document is parsed with `serde_json::from_str` into a
/// `serde_json::Value`, whose `Index` gives `Null` for a missing member; the
/// member's variant is carried over one for one, an object with its members
/// in the order of `serde_json`'s map. The contract names the result, which
/// depends on the text alone (`None` exactly when the text is not JSON).
#[verifier::external_body]
pub(crate) fn hash_table_members(doc: &str) -> (r: Option<JsonShape>)
    ensures
        match r {
            Some(m) => doc_table_members(doc@) == Some(m@),
            None => doc_table_members(doc@) is None,
        },
{
    let d: Value = serde_json::from_str(doc).ok()?;
    Some(match &d["hash_table"] {
        Value::Null => JsonShape::Null,
        Value::Bool(_) => JsonShape::Bool,
        Value::Number(_) => JsonShape::Number,
        Value::String(_) => JsonShape::Str,
        Value::Array(_) => JsonShape::Array,
        Value::Object(o) => JsonShape::Object(o.iter().map(|(k, v)| (k.clone(), v.as_str().map(|x| x.to_string()))).collect()),
    })
}

/// The DID document `doc` with its `hash_table` member set to the JSON text
/// `table`, written back compactly; nothing when either text is not JSON or
/// the document is neither an object nor `null`.
pub uninterp spec fn doc_with_table(doc: Seq<char>, table: Seq<char>) -> Option<Seq<char>>;

/// Sets the `hash_table` member of a DID document.
///
/// Trusted: both texts are parsed with `serde_json::from_str`, the member is
/// set by `serde_json::Value`'s `IndexMut` (which turns `null` into an object
/// and would panic on any other non-object, the case the body answers with
/// `None`), and the document is written back with its `Display`. The
/// contract names the result, which depends on the two texts alone.
#[verifier::external_body]
pub(crate) fn set_doc_table(doc: &str, table: &str) -> (r: Option<String>)
    ensures
        match r {
            Some(t) => doc_with_table(doc@, table@) == Some(t@),
            None => doc_with_table(doc@, table@) is None,
        },
{
    let mut d: Value = serde_json::from_str(doc).ok()?;
    let t: Value = serde_json::from_str(table).ok()?;
    if !(d.is_object() || d.is_null()) {
        return None;
    }
    d["hash_table"] = t;
    Some(d.to_string())
}

} // verus!
