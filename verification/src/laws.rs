use vstd::prelude::*;
use crate::kernel::ParcelView;
use crate::network::{
    did_file_url, did_file_ref,
    CacheView, NetworkView, RequestView, TaskView, cache_lookup, did_hash_key, did_kv_spec, insert_kv_spec, is_cached,
    network_step, revoked_answer, value_answer,
};
use crate::step::{DataRecordView, EffectView, FetchView, Loaded, LoadedView, NextView, StepView};
use crate::utility::authenticate_spec;
use crate::hash::hash_text;
use crate::json::json_canonical;
use crate::table::Table;
use crate::utility::ipfs_path;
use crate::chain::{app_map_spec, user_table_spec, DrawView, PurposeView, RegTaskView, app_prefix, registration_step, suffix_found, user_prefix};
use crate::utility::{did_chain_path, keyring_path, uri_key, member_seqs, shape_members, string_members, text_map};
use crate::json::{doc_table_members, doc_with_table, json_object, key_index};
use crate::text::{lemma_split_on_nonempty, split_on};
use crate::random::{alnum_text, is_alnum};

verus! {

/// Changing the cache keeps its invariant: no app is cached twice, every
/// block holds one app, and there are at most `CACHE_LIMIT` blocks.
pub proof fn law_cache_invariant_kept(net: NetworkView, did: Seq<char>, uri: Seq<char>, now: u64)
    requires
        net.wf(),
    ensures
        net.set_cache(did, uri, now).0.wf(),
{
    let (n2, ok) = net.set_cache(did, uri, now);
    if ok {
        let m = map![did => uri];
        assert(m.dom() =~= set![did]);
        assert forall|i: int| 0 <= i < n2.cache.len() implies #[trigger] n2.cache[i].data.dom().len() == 1
            && n2.cache[i].data.dom().finite() by {
            if i < net.cache.len() {
                assert(n2.cache[i] == net.cache[i]);
            }
        }
        assert forall|i: int, j: int, k: Seq<char>|
            0 <= i < n2.cache.len() && 0 <= j < n2.cache.len() && i != j
                && #[trigger] n2.cache[i].data.contains_key(k)
                implies !(#[trigger] n2.cache[j].data.contains_key(k)) by {
            let n = net.cache.len();
            if i < n && j < n {
                assert(n2.cache[i] == net.cache[i]);
                assert(n2.cache[j] == net.cache[j]);
            } else if i < n {
                assert(n2.cache[i] == net.cache[i]);
                if n2.cache[j].data.contains_key(k) {
                    assert(k == did);
                    assert(net.cache[i].data.contains_key(did));
                }
            } else {
                assert(n2.cache[j] == net.cache[j]);
                if n2.cache[j].data.contains_key(k) {
                    assert(k == did);
                    assert(net.cache[j].data.contains_key(did));
                }
            }
        }
    }
}

proof fn lemma_lookup_push(cache: Seq<CacheView>, block: CacheView, did: Seq<char>)
    requires
        !is_cached(cache, did),
    ensures
        cache_lookup(cache.push(block), did) == if block.data.contains_key(did) {
            block.data[did]
        } else {
            Seq::<char>::empty()
        },
    decreases cache.len(),
{
    if cache.len() == 0 {
        assert(cache.push(block)[0] == block);
        assert(cache.push(block).drop_first() =~= Seq::<CacheView>::empty());
        assert(cache_lookup(Seq::<CacheView>::empty(), did) == Seq::<char>::empty());
    } else {
        assert(!cache[0].data.contains_key(did));
        assert(cache.push(block)[0] == cache[0]);
        assert(cache.push(block).drop_first() =~= cache.drop_first().push(block));
        assert forall|i: int| 0 <= i < cache.drop_first().len()
            implies !(#[trigger] cache.drop_first()[i].data.contains_key(did)) by {
            assert(cache.drop_first()[i] == cache[i + 1]);
        }
        lemma_lookup_push(cache.drop_first(), block, did);
    }
}

/// Once an app's address is cached, the cache gives that address back.
pub proof fn law_cached_address_found(net: NetworkView, did: Seq<char>, uri: Seq<char>, now: u64)
    requires
        net.wf(),
        net.set_cache(did, uri, now).1,
    ensures
        cache_lookup(net.set_cache(did, uri, now).0.cache, did) == uri,
{
    lemma_lookup_push(net.cache, CacheView { created: now, data: map![did => uri] }, did);
}

/// A cached address is never replaced, and a full cache takes no more.
pub proof fn law_cache_keeps_first(net: NetworkView, did: Seq<char>, uri: Seq<char>, now: u64)
    requires
        is_cached(net.cache, did) || net.height >= crate::network::CACHE_LIMIT,
    ensures
        net.set_cache(did, uri, now) == (net, false),
{
}

/// A value stored under a key of an app's table is what a later read of that
/// key gives back from the table as written.
pub proof fn law_app_insert_then_get(
    net: NetworkView,
    uri: Seq<char>,
    t: Map<Seq<char>, Seq<char>>,
    key: Seq<char>,
    val: Seq<char>,
    app_did: Seq<char>,
    now: u64,
)
    ensures
        ({
            let (_, _, s) = network_step(
                net,
                TaskView::AppTable(RequestView::InsertApp { key, val, app_did }, uri),
                LoadedView::Values(t),
                now,
            );
            &&& s.effects.len() == 1
            &&& s.effects[0] matches EffectView::WriteValues(path, written) && path == uri && {
                let (_, _, g) = network_step(
                    net,
                    TaskView::AppTable(RequestView::GetApp { key, app_did }, uri),
                    LoadedView::Values(written),
                    now,
                );
                g.next == NextView::Reply(ParcelView::String(val))
            }
        }),
{
}

/// Removing a key of an app's table answers what a read of the key answers,
/// and a read of the table as written finds the key no more.
pub proof fn law_app_delete(
    net: NetworkView,
    uri: Seq<char>,
    t: Map<Seq<char>, Seq<char>>,
    key: Seq<char>,
    app_did: Seq<char>,
    now: u64,
)
    ensures
        ({
            let (_, _, d) = network_step(
                net,
                TaskView::AppTable(RequestView::DeleteApp { key, app_did }, uri),
                LoadedView::Values(t),
                now,
            );
            let (_, _, g) = network_step(
                net,
                TaskView::AppTable(RequestView::GetApp { key, app_did }, uri),
                LoadedView::Values(t),
                now,
            );
            &&& d.next == g.next
            &&& t.contains_key(key) ==> (d.effects.len() == 1
                && (d.effects[0] matches EffectView::WriteValues(path, written) && path == uri
                && value_answer(written, key) == ParcelView::Empty))
            &&& !t.contains_key(key) ==> d.effects.len() == 0
        }),
{
    let (_, _, d) = network_step(
        net,
        TaskView::AppTable(RequestView::DeleteApp { key, app_did }, uri),
        LoadedView::Values(t),
        now,
    );
    if t.contains_key(key) {
        assert(d.effects[0] == EffectView::WriteValues(uri, t.remove(key)));
    }
}

/// A value stored in the data file that an app shares with a samaritan is what
/// a later read of the key from that file as written gives back (by its compact JSON text).
pub proof fn law_shared_insert_then_get(
    kv: Map<Seq<char>, Seq<char>>,
    sam_did: Seq<char>,
    key: Seq<char>,
    val: Seq<char>,
    app_did: Seq<char>,
)
    requires
        json_canonical(val) is Some,
    ensures
        ({
            let req = RequestView::InsertDid { sam_did, key, val, app_did };
            let (_, s) = insert_kv_spec(req, kv);
            &&& s.next == NextView::Reply(ParcelView::String(crate::network::insert_answer()))
            &&& s.effects[0] matches EffectView::WriteValues(path, written) && {
                let (_, g) = did_kv_spec(RequestView::GetDid { sam_did, key, app_did }, path, written);
                g.next == NextView::Reply(ParcelView::String(json_canonical(val)->Some_0))
            }
        }),
{
}

/// The keyring as a registration leaves it lets the seed phrase of the new
/// DID authenticate that DID.
pub proof fn law_registered_seed_authenticates(k: Map<Seq<char>, Seq<char>>, did: Seq<char>, seed: Seq<char>)
    ensures
        authenticate_spec(k.insert(hash_text(seed), did), seed) == ("true"@, did),
{
}

proof fn lemma_split_append(s: Seq<char>, t: Seq<char>, sep: char)
    requires
        forall|i: int| 0 <= i < t.len() ==> t[i] != sep,
    ensures
        split_on(s + t, sep) == split_on(s, sep).update(
            split_on(s, sep).len() - 1,
            split_on(s, sep).last() + t,
        ),
    decreases t.len(),
{
    lemma_split_on_nonempty(s, sep);
    let p = split_on(s, sep);
    if t.len() == 0 {
        assert(s + t =~= s);
        assert(p.last() + t =~= p.last());
        assert(p.update(p.len() - 1, p.last() + t) =~= p);
    } else {
        let t0 = t.drop_last();
        lemma_split_append(s, t0, sep);
        assert((s + t).drop_last() =~= s + t0);
        assert((s + t).last() == t.last());
        let q = split_on(s + t0, sep);
        lemma_split_on_nonempty(s + t0, sep);
        assert(q.last() == p.last() + t0);
        assert(q.last().push(t.last()) =~= p.last() + t);
        assert(q.update(q.len() - 1, q.last().push(t.last())) =~= p.update(p.len() - 1, p.last() + t));
    }
}

/// A separator and a field without separators add one part to a split.
proof fn lemma_split_field(s: Seq<char>, t: Seq<char>, sep: char)
    requires
        forall|i: int| 0 <= i < t.len() ==> t[i] != sep,
    ensures
        split_on(s.push(sep) + t, sep) == split_on(s, sep).push(t),
{
    let p = split_on(s, sep);
    assert(s.push(sep).drop_last() =~= s);
    assert(split_on(s.push(sep), sep) == p.push(Seq::<char>::empty()));
    lemma_split_append(s.push(sep), t, sep);
    assert(p.push(Seq::<char>::empty()).update(p.len() as int, Seq::<char>::empty() + t) =~= p.push(t));
}

/// A DID of the form `a:b:c:t` splits at `:` into its four parts.
proof fn lemma_did_parts(a: Seq<char>, b: Seq<char>, c: Seq<char>, t: Seq<char>)
    requires
        forall|i: int| 0 <= i < a.len() ==> a[i] != ':',
        forall|i: int| 0 <= i < b.len() ==> b[i] != ':',
        forall|i: int| 0 <= i < c.len() ==> c[i] != ':',
        forall|i: int| 0 <= i < t.len() ==> t[i] != ':',
    ensures
        split_on(((a.push(':') + b).push(':') + c).push(':') + t, ':') == seq![a, b, c, t],
{
    let e = Seq::<char>::empty();
    lemma_split_append(e, a, ':');
    assert(e + a =~= a);
    assert(split_on(a, ':') =~= seq![a]);
    lemma_split_field(a, b, ':');
    lemma_split_field(a.push(':') + b, c, ':');
    lemma_split_field((a.push(':') + b).push(':') + c, t, ':');
    assert(seq![a].push(b).push(c).push(t) =~= seq![a, b, c, t]);
}

/// The DID that a registration gives out once its drawn suffix of letters and
/// digits is free splits at `:` into `did`, `sam`, the kind and the suffix:
/// an app's DID is one that `is_app` accepts, a samaritan's one it refuses.
pub proof fn law_is_app_on_registered_dids(p: PurposeView, suffix: Seq<char>, n: nat)
    requires
        alnum_text(suffix, n),
    ensures
        ({
            let did = match suffix_found(p, suffix).0 {
                RegTaskView::UserChain(did, _) => did,
                RegTaskView::AppChain(did) => did,
                _ => Seq::<char>::empty(),
            };
            &&& split_on(did, ':').len() == 4
            &&& split_on(did, ':')[3] == suffix
            &&& (split_on(did, ':')[2] == "app"@) == (p is App)
        }),
{
    reveal_strlit("did:sam:app:");
    reveal_strlit("did:sam:root:");
    reveal_strlit("app");
    let d = seq!['d', 'i', 'd'];
    let sam = seq!['s', 'a', 'm'];
    let app = seq!['a', 'p', 'p'];
    let root = seq!['r', 'o', 'o', 't'];
    assert forall|i: int| 0 <= i < suffix.len() implies suffix[i] != ':' by {
        assert(is_alnum(suffix[i]));
    }
    assert("app"@ =~= app);
    match p {
        PurposeView::App => {
            assert(app_prefix() + suffix =~= ((d.push(':') + sam).push(':') + app).push(':') + suffix);
            lemma_did_parts(d, sam, app, suffix);
        },
        PurposeView::User(_) => {
            assert(user_prefix() + suffix =~= ((d.push(':') + sam).push(':') + root).push(':') + suffix);
            lemma_did_parts(d, sam, root, suffix);
            assert(root[0] != app[0]);
        },
    }
}

/// Reads change no file: at every stage where a read of an app's table or of
/// shared data gets what it asked for, the step has no effects.
pub proof fn law_reads_write_nothing(
    net: NetworkView,
    req: RequestView,
    path: Seq<char>,
    t: Map<Seq<char>, Seq<char>>,
    rt: Map<Seq<char>, DataRecordView>,
    now: u64,
)
    requires
        req is GetApp || req is GetDid,
    ensures
        network_step(net, TaskView::AppTable(req, path), LoadedView::Values(t), now).2.effects.len() == 0,
        network_step(net, TaskView::DidRecords(req), LoadedView::Records(rt), now).2.effects.len() == 0,
        network_step(net, TaskView::DidKv(req, path), LoadedView::Values(t), now).2.effects.len() == 0,
{
}

/// Data whose access was revoked is not read: a read is answered with the
/// revoked status, a removal with nothing, and neither touches the data file.
pub proof fn law_revoked_access(
    net: NetworkView,
    sam_did: Seq<char>,
    key: Seq<char>,
    app_did: Seq<char>,
    rt: Map<Seq<char>, DataRecordView>,
    now: u64,
)
    requires
        rt.contains_key(did_hash_key(app_did, sam_did)),
        rt[did_hash_key(app_did, sam_did)].can_access == Some(false),
    ensures
        network_step(net, TaskView::DidRecords(RequestView::GetDid { sam_did, key, app_did }), LoadedView::Records(rt), now)
            == (net, TaskView::Done, StepView { effects: Seq::empty(), next: NextView::Reply(ParcelView::String(revoked_answer())) }),
        network_step(net, TaskView::DidRecords(RequestView::DeleteDid { sam_did, key, app_did }), LoadedView::Records(rt), now)
            == (net, TaskView::Done, StepView { effects: Seq::empty(), next: NextView::Reply(ParcelView::Empty) }),
{
}

/// An app's address learnt from the apps root table is cached (when the cache
/// has room), so that later requests of the app find it there.
pub proof fn law_resolved_address_cached(
    net: NetworkView,
    req: RequestView,
    a: Map<Seq<char>, Seq<char>>,
    now: u64,
)
    requires
        net.wf(),
        req.is_app_scoped(),
        a.contains_key(req.app_did()),
        !is_cached(net.cache, req.app_did()),
        net.height < crate::network::CACHE_LIMIT,
    ensures
        ({
            let (n2, t2, s2) = network_step(net, TaskView::ResolveRoot(req), LoadedView::Strings(a), now);
            &&& cache_lookup(n2.cache, req.app_did()) == a[req.app_did()]
            &&& t2 == TaskView::AppTable(req, a[req.app_did()])
            &&& s2.next == NextView::Fetch(FetchView::Values(a[req.app_did()]))
        }),
{
    law_cached_address_found(net, req.app_did(), a[req.app_did()], now);
}

/// The data of an app and a samaritan goes to the file named by the hash of the
/// app DID followed by the samaritan DID, and the chain is told that name and file.
pub proof fn law_shared_file_name(kv: Map<Seq<char>, Seq<char>>, sam_did: Seq<char>, key: Seq<char>, val: Seq<char>, app_did: Seq<char>)
    requires
        json_canonical(val) is Some,
    ensures
        ({
            let (_, s) = insert_kv_spec(RequestView::InsertDid { sam_did, key, val, app_did }, kv);
            &&& s.effects.len() == 2
            &&& s.effects[0] matches EffectView::WriteValues(path, _) && path == "./ipfs/files/"@ + hash_text(app_did + sam_did) + ".json"@
            &&& s.effects[1] == EffectView::NotifyChain(hash_text(app_did + sam_did), "./ipfs/files/"@ + hash_text(app_did + sam_did) + ".json"@)
        }),
{
}

/// A suffix is given out only when the table it is checked against does not
/// hold it; otherwise a new one of 32 characters is looked for among the
/// samaritans' DIDs.
pub proof fn law_accepted_suffix_is_free(p: PurposeView, n: u32, input: Loaded, d: DrawView)
    requires
        input@ is Strings,
    ensures
        ({
            let (t2, s2) = registration_step(RegTaskView::SuffixTable(p, n), &input, d);
            if input@->Strings_0.contains_key(d.suffix) {
                t2 == RegTaskView::Suffix(p, 32) && s2.next == NextView::Fetch(FetchView::Strings(did_chain_path()))
            } else {
                t2 == suffix_found(p, d.suffix).0
            }
        }),
{
}

/// A root table that a registration updates is written, then moved to the
/// address named by the hash of the very text that was written for it.
pub proof fn law_moved_table_named_by_its_text(
    did: Seq<char>,
    path: Seq<char>,
    addr: Seq<char>,
    t: Table<String>,
    seed: Seq<char>,
)
    ensures
        ({
            let (_, s) = user_table_spec(did, path, addr, &t, seed);
            &&& s.effects[0] matches EffectView::WriteStrings(a, _, text)
                && a == addr && s.effects[1] == EffectView::Rename(addr, ipfs_path(hash_text(text)))
        }),
        ({
            let (_, s) = app_map_spec(did, addr, &t, seed);
            split_on(did, ':').len() >= 4 ==> (s.effects[1] matches EffectView::WriteStrings(a, _, text)
                && a == addr && s.effects[2] == EffectView::Rename(addr, ipfs_path(hash_text(text))))
        }),
{
}


/// `w` is `t` with at most `key` changed: every other key is in `w` exactly
/// when it is in `t`, with the same value.
pub open spec fn others_kept(t: Map<Seq<char>, Seq<char>>, w: Map<Seq<char>, Seq<char>>, key: Seq<char>) -> bool {
    forall|k: Seq<char>|
        #![trigger w.contains_key(k)]
        #![trigger t.contains_key(k)]
        k != key ==> (w.contains_key(k) == t.contains_key(k) && (t.contains_key(k) ==> w[k] == t[k]))
}

/// Storing a record in an app's table writes back to the table's own address
/// the loaded table with that one key set to the value: every other record
/// of the app keeps its value.
pub proof fn law_app_insert_keeps_other_records(
    net: NetworkView,
    uri: Seq<char>,
    t: Map<Seq<char>, Seq<char>>,
    key: Seq<char>,
    val: Seq<char>,
    app_did: Seq<char>,
    now: u64,
)
    ensures
        ({
            let (_, _, s) = network_step(
                net,
                TaskView::AppTable(RequestView::InsertApp { key, val, app_did }, uri),
                LoadedView::Values(t),
                now,
            );
            &&& s.effects.len() == 1
            &&& s.effects[0] matches EffectView::WriteValues(path, w)
                && path == uri
                && w.contains_key(key) && w[key] == val
                && others_kept(t, w, key)
        }),
{
}

/// Storing shared data writes back to the shared file the loaded data with
/// the one key set to the value's compact JSON, every other key keeping its
/// value, and tells the chain where the data of the app and samaritan lies.
pub proof fn law_shared_insert_keeps_other_records(
    net: NetworkView,
    kv: Map<Seq<char>, Seq<char>>,
    sam_did: Seq<char>,
    key: Seq<char>,
    val: Seq<char>,
    app_did: Seq<char>,
    now: u64,
)
    requires
        json_canonical(val) is Some,
    ensures
        ({
            let req = RequestView::InsertDid { sam_did, key, val, app_did };
            let (_, _, s) = network_step(net, TaskView::InsertKv(req), LoadedView::Values(kv), now);
            &&& s.effects.len() == 2
            &&& s.effects[0] matches EffectView::WriteValues(path, w)
                && path == did_file_url(app_did, sam_did)
                && w.contains_key(key) && w[key] == json_canonical(val)->Some_0
                && others_kept(kv, w, key)
            &&& s.effects[1] == EffectView::NotifyChain(did_hash_key(app_did, sam_did), did_file_url(app_did, sam_did))
            &&& s.next == NextView::Reply(ParcelView::String(crate::network::insert_answer()))
        }),
{
}

/// Removing a key of shared data answers its value and writes back to the
/// file that was read the data without that key: every other key keeps its
/// value. A key that is not there is answered with nothing and nothing is written.
pub proof fn law_shared_delete_keeps_other_records(
    net: NetworkView,
    path: Seq<char>,
    kv: Map<Seq<char>, Seq<char>>,
    sam_did: Seq<char>,
    key: Seq<char>,
    app_did: Seq<char>,
    now: u64,
)
    ensures
        ({
            let req = RequestView::DeleteDid { sam_did, key, app_did };
            let (_, _, s) = network_step(net, TaskView::DidKv(req, path), LoadedView::Values(kv), now);
            if kv.contains_key(key) {
                &&& s.next == NextView::Reply(ParcelView::String(kv[key]))
                &&& s.effects.len() == 1
                &&& s.effects[0] matches EffectView::WriteValues(p, w)
                    && p == path
                    && !w.contains_key(key)
                    && others_kept(kv, w, key)
            } else {
                s.next == NextView::Reply(ParcelView::Empty) && s.effects.len() == 0
            }
        }),
{
}

/// Registering an app creates its empty table and enters the app's DID in
/// the apps root table with the very path of the file created, the other
/// apps keeping their entries; the root table is written where it was read.
pub proof fn law_app_registration_links_created_table(
    did: Seq<char>,
    uri: Seq<char>,
    m: Table<String>,
    d: DrawView,
)
    requires
        split_on(did, ':').len() >= 4,
    ensures
        ({
            let (_, s) = registration_step(RegTaskView::AppMap(did, uri), &Loaded::Strings(m), d);
            &&& s.effects.len() >= 2
            &&& s.effects[0] matches EffectView::CreateFile(created, content)
                && content == "{}"@
                && (s.effects[1] matches EffectView::WriteStrings(root, w, _)
                    && root == uri
                    && w.contains_key(did) && w[did] == created
                    && others_kept(text_map(&m), w, did))
        }),
{
}

/// Registering a samaritan enters its DID, with the path of its root
/// document, in the DID root table as it was read, written back where it was
/// read: every DID registered before keeps its entry.
pub proof fn law_user_registration_keeps_registered_dids(
    did: Seq<char>,
    path: Seq<char>,
    addr: Seq<char>,
    t: Table<String>,
    d: DrawView,
)
    ensures
        ({
            let (_, s) = registration_step(RegTaskView::UserTable(did, path, addr), &Loaded::Strings(t), d);
            &&& s.effects.len() >= 1
            &&& s.effects[0] matches EffectView::WriteStrings(root, w, _)
                && root == addr
                && w.contains_key(did) && w[did] == path
                && others_kept(text_map(&t), w, did)
        }),
{
}


/// The keys `ks` and values `vs`, paired in order, are exactly the entries of `m`.
pub open spec fn pairs_are(ks: Seq<Seq<char>>, vs: Seq<Seq<char>>, m: Map<Seq<char>, Seq<char>>) -> bool {
    &&& ks.len() == vs.len()
    &&& ks.no_duplicates()
    &&& forall|i: int| 0 <= i < ks.len() ==> #[trigger] m.contains_key(ks[i]) && m[ks[i]] == vs[i]
    &&& forall|k: Seq<char>| #[trigger] m.contains_key(k) ==> ks.contains(k)
}

/// The keys and values that a table of string members keeps in order are
/// exactly those string members.
proof fn lemma_member_seqs(e: Seq<(Seq<char>, Option<Seq<char>>)>)
    ensures
        pairs_are(member_seqs(e).0, member_seqs(e).1, string_members(e)),
    decreases e.len(),
{
    if e.len() > 0 {
        let p = e.drop_last();
        lemma_member_seqs(p);
        let (pk, pv) = member_seqs(p);
        let pm = string_members(p);
        match e.last().1 {
            Some(v) => {
                let k = e.last().0;
                let m = pm.insert(k, v);
                if pk.contains(k) {
                    let j = key_index(pk, k);
                    let nv = pv.update(j, v);
                    assert(pk[j] == k);
                    assert forall|i: int| 0 <= i < pk.len() implies #[trigger] m.contains_key(pk[i]) && m[pk[i]] == nv[i] by {
                        if i != j {
                            assert(pk[i] != pk[j]);
                            assert(pm.contains_key(pk[i]));
                        }
                    }
                    assert forall|x: Seq<char>| #[trigger] m.contains_key(x) implies pk.contains(x) by {
                        if x != k {
                            assert(pm.contains_key(x));
                        }
                    }
                } else {
                    let nk = pk.push(k);
                    let nv = pv.push(v);
                    assert forall|i: int| 0 <= i < nk.len() implies #[trigger] m.contains_key(nk[i]) && m[nk[i]] == nv[i] by {
                        if i < pk.len() {
                            assert(nk[i] == pk[i]);
                            assert(pm.contains_key(pk[i]));
                            assert(pk[i] != k);
                        }
                    }
                    assert forall|x: Seq<char>| #[trigger] m.contains_key(x) implies nk.contains(x) by {
                        if x != k {
                            assert(pm.contains_key(x));
                            let i = choose|i: int| 0 <= i < pk.len() && pk[i] == x;
                            assert(nk[i] == x);
                        } else {
                            assert(nk[pk.len() as int] == k);
                        }
                    }
                    assert(nk.no_duplicates()) by {
                        assert forall|a: int, b: int| 0 <= a < nk.len() && 0 <= b < nk.len() && a != b
                            implies nk[a] != nk[b] by {
                            if a < pk.len() && b < pk.len() {
                                assert(pk[a] != pk[b]);
                            } else if a < pk.len() {
                                assert(nk[a] == pk[a]);
                            } else {
                                assert(nk[b] == pk[b]);
                            }
                        }
                    }
                }
            },
            None => {},
        }
    }
}

/// Linking an app to a samaritan rewrites the samaritan's DID document with
/// a hash table that holds exactly the string members it held and the link
/// to the shared data file; where the table already holds the app, the
/// document is left as it is.
pub proof fn law_doc_link_keeps_members(
    net: NetworkView,
    uri: Seq<char>,
    at: Map<Seq<char>, Seq<char>>,
    path: Seq<char>,
    doc: Seq<char>,
    sam_did: Seq<char>,
    key: Seq<char>,
    val: Seq<char>,
    app_did: Seq<char>,
    now: u64,
)
    requires
        doc_table_members(doc) is Some,
    ensures
        ({
            let req = RequestView::InsertDid { sam_did, key, val, app_did };
            let (_, _, s) = network_step(net, TaskView::SamDoc(req, uri, at, path), LoadedView::Text(doc), now);
            let sm = string_members(shape_members(doc_table_members(doc)->Some_0));
            if sm.contains_key(app_did) {
                forall|i: int| 0 <= i < s.effects.len() ==> !(#[trigger] s.effects[i] is ReplaceFile)
            } else {
                exists|ks: Seq<Seq<char>>, vs: Seq<Seq<char>>|
                    #[trigger] pairs_are(ks, vs, sm.insert(app_did, did_file_url(app_did, sam_did)))
                    && match doc_with_table(doc, json_object(ks, vs)) {
                        None => s.next == NextView::Fail,
                        Some(nd) => s.effects[0] == EffectView::ReplaceFile(path, nd),
                    }
            }
        }),
{
    let e = shape_members(doc_table_members(doc)->Some_0);
    lemma_member_seqs(e);
    let (ks, vs) = member_seqs(e);
    let sm = string_members(e);
    let url = did_file_url(app_did, sam_did);
    if !sm.contains_key(app_did) {
        let m = sm.insert(app_did, url);
        let nk = ks.push(app_did);
        let nv = vs.push(url);
        assert(!ks.contains(app_did));
        assert forall|i: int| 0 <= i < nk.len() implies #[trigger] m.contains_key(nk[i]) && m[nk[i]] == nv[i] by {
            if i < ks.len() {
                assert(nk[i] == ks[i]);
                assert(sm.contains_key(ks[i]));
            }
        }
        assert forall|x: Seq<char>| #[trigger] m.contains_key(x) implies nk.contains(x) by {
            if x != app_did {
                assert(ks.contains(x));
                let i = choose|i: int| 0 <= i < ks.len() && ks[i] == x;
                assert(nk[i] == x);
            } else {
                assert(nk[ks.len() as int] == app_did);
            }
        }
        assert(nk.no_duplicates()) by {
            assert forall|a: int, b: int| 0 <= a < nk.len() && 0 <= b < nk.len() && a != b implies nk[a] != nk[b] by {
                if a < ks.len() && b < ks.len() {
                    assert(ks[a] != ks[b]);
                } else if a < ks.len() {
                    assert(nk[a] == ks[a]);
                } else {
                    assert(nk[b] == ks[b]);
                }
            }
        }
        assert(pairs_are(nk, nv, m));
    } else {
        assert(ks.contains(app_did));
    }
}


/// Removing a record of an app's table writes back to the table's own
/// address the loaded table without that key: every other record keeps its value.
pub proof fn law_app_delete_keeps_other_records(
    net: NetworkView,
    uri: Seq<char>,
    t: Map<Seq<char>, Seq<char>>,
    key: Seq<char>,
    app_did: Seq<char>,
    now: u64,
)
    requires
        t.contains_key(key),
    ensures
        ({
            let (_, _, s) = network_step(
                net,
                TaskView::AppTable(RequestView::DeleteApp { key, app_did }, uri),
                LoadedView::Values(t),
                now,
            );
            &&& s.next == NextView::Reply(ParcelView::String(t[key]))
            &&& s.effects.len() == 1
            &&& s.effects[0] matches EffectView::WriteValues(path, w)
                && path == uri && !w.contains_key(key) && others_kept(t, w, key)
        }),
{
}

/// Linking an app to a samaritan for the first time enters the samaritan in
/// the app's table, written back to its address with every other entry kept,
/// and creates the shared data file empty; an app's table that already holds
/// the samaritan is not written.
pub proof fn law_shared_link_keeps_app_table(
    net: NetworkView,
    uri: Seq<char>,
    at: Map<Seq<char>, Seq<char>>,
    path: Seq<char>,
    doc: Seq<char>,
    sam_did: Seq<char>,
    key: Seq<char>,
    val: Seq<char>,
    app_did: Seq<char>,
    now: u64,
)
    ensures
        ({
            let req = RequestView::InsertDid { sam_did, key, val, app_did };
            let (_, _, s) = network_step(net, TaskView::SamDoc(req, uri, at, path), LoadedView::Text(doc), now);
            let n = s.effects.len();
            s.next != NextView::Fail ==> if at.contains_key(sam_did) {
                forall|i: int| 0 <= i < n ==> !(#[trigger] s.effects[i] is WriteValues)
            } else {
                &&& n >= 2
                &&& s.effects[n - 2] matches EffectView::WriteValues(p, w)
                    && p == uri
                    && w.contains_key(sam_did) && w[sam_did] == did_file_ref(app_did, sam_did)
                    && others_kept(at, w, sam_did)
                &&& s.effects[n - 1] == EffectView::WriteFile(did_file_url(app_did, sam_did), "{}"@)
            }
        }),
{
}

/// The chain record that a registration updates is written back where it
/// was read, pointing at the moved table, with its other entries kept.
pub proof fn law_chain_record_keeps_entries(
    storage: Seq<char>,
    new_addr: Seq<char>,
    did: Seq<char>,
    seed: Seq<char>,
    c: Table<String>,
    d: DrawView,
)
    ensures
        ({
            let (_, s) = registration_step(RegTaskView::SetUri(storage, new_addr, did, seed), &Loaded::Strings(c), d);
            &&& s.effects.len() == 1
            &&& s.effects[0] matches EffectView::WriteStrings(p, w, _)
                && p == storage
                && w.contains_key(uri_key()) && w[uri_key()] == new_addr
                && others_kept(text_map(&c), w, uri_key())
        }),
{
}

/// The last stage of a registration records the hash of the seed phrase for
/// the DID in the keyring, every earlier entry kept, and answers the DID and
/// its seed phrase.
pub proof fn law_keyring_keeps_entries(did: Seq<char>, seed: Seq<char>, k: Table<String>, d: DrawView)
    ensures
        ({
            let (_, s) = registration_step(RegTaskView::Keyring(did, seed), &Loaded::Strings(k), d);
            &&& s.next == NextView::Reply(ParcelView::Tuple1(did, seed))
            &&& s.effects.len() == 1
            &&& s.effects[0] matches EffectView::WriteStrings(p, w, _)
                && p == keyring_path()
                && w.contains_key(hash_text(seed)) && w[hash_text(seed)] == did
                && others_kept(text_map(&k), w, hash_text(seed))
        }),
{
}

} // verus!
