//! Framework metadata tables served to completion and hover, and the
//! process-lifetime cache that holds one generation of them: an explicit
//! cache value passed by handle, rebuilt wholesale on a key miss and
//! invalidated explicitly by the host.

pub mod attribute;
pub mod document;
pub mod global_attribute;
pub mod js_tag;
pub mod snippets_html;
pub mod snippets_js;
pub mod tag;

use vstd::prelude::*;

use std::sync::Arc;

use crate::text::{push_char, str_eq};

verus! {

/// One component attribute: its kind (`attribute` or `method`), its
/// documentation line, and its enumerated values.
#[derive(Clone, Debug)]
pub struct AttrInfo {
    pub attr_type: String,
    pub description: String,
    pub values: Vec<String>,
}

/// The mathematical content of an attribute record.
pub open spec fn attr_info_view(a: AttrInfo) -> (Seq<char>, Seq<char>, Seq<Seq<char>>) {
    (a.attr_type@, a.description@, a.values.deep_view())
}

/// A string-to-string table as a sequence of pairs.
pub open spec fn str_table_view(v: Seq<(String, String)>) -> Seq<(Seq<char>, Seq<char>)> {
    v.map_values(|p: (String, String)| (p.0@, p.1@))
}

/// A per-tag attribute table as a sequence of pairs.
pub open spec fn attr_table_view(v: Seq<(String, AttrInfo)>) -> Seq<
    (Seq<char>, (Seq<char>, Seq<char>, Seq<Seq<char>>)),
> {
    v.map_values(|p: (String, AttrInfo)| (p.0@, attr_info_view(p.1)))
}

/// The whole attribute catalogue, tag by tag.
pub open spec fn tag_attr_table_view(v: Seq<(String, Vec<(String, AttrInfo)>)>) -> Seq<
    (Seq<char>, Seq<(Seq<char>, (Seq<char>, Seq<char>, Seq<Seq<char>>))>),
> {
    v.map_values(|p: (String, Vec<(String, AttrInfo)>)| (p.0@, attr_table_view(p.1@)))
}

/// One of the element frameworks is named.
pub open spec fn has_element(fws: Seq<Seq<char>>) -> bool {
    exists|k: int| 0 <= k < fws.len() && (fws[k] == "element-ui"@ || fws[k] == "element-plus"@)
}

/// The framework list as character sequences.
pub open spec fn fw_view(frameworks: &Vec<String>) -> Seq<Seq<char>> {
    frameworks@.map_values(|s: String| s@)
}

fn has_element_check(frameworks: &Vec<String>) -> (r: bool)
    ensures
        r == has_element(fw_view(frameworks)),
{
    let ghost fv = fw_view(frameworks);
    let n = frameworks.len();
    let mut k: usize = 0;
    while k < n
        invariant
            0 <= k <= n,
            n == fv.len(),
            fv == fw_view(frameworks),
            forall|j: int| 0 <= j < k ==> !(fv[j] == "element-ui"@ || fv[j] == "element-plus"@),
        decreases n - k,
    {
        if str_eq(frameworks[k].as_str(), "element-ui") || str_eq(
            frameworks[k].as_str(),
            "element-plus",
        ) {
            proof {
                assert(fv[k as int] == frameworks@[k as int]@);
            }
            return true;
        }
        k = k + 1;
    }
    false
}

/// The tag table the framework set earns.
pub open spec fn spec_tags_for(fws: Seq<Seq<char>>, ts: Seq<char>) -> Seq<
    (Seq<char>, Seq<char>),
> {
    if has_element(fws) {
        tag::spec_element_tags(ts)
    } else {
        Seq::<(Seq<char>, Seq<char>)>::empty()
    }
}

/// The script-snippet table the framework set earns.
pub open spec fn spec_js_tags_for(fws: Seq<Seq<char>>, ts: Seq<char>) -> Seq<
    (Seq<char>, Seq<char>),
> {
    if has_element(fws) {
        js_tag::spec_element_js_tags(ts)
    } else {
        Seq::<(Seq<char>, Seq<char>)>::empty()
    }
}

/// The hover-document table the framework set earns.
pub open spec fn spec_documents_for(fws: Seq<Seq<char>>, ts: Seq<char>) -> Seq<
    (Seq<char>, Seq<char>),
> {
    if has_element(fws) {
        document::spec_element_documents()
    } else {
        Seq::<(Seq<char>, Seq<char>)>::empty()
    }
}

/// The attribute catalogue the framework set earns.
pub open spec fn spec_attributes_for(fws: Seq<Seq<char>>, ts: Seq<char>) -> Seq<
    (Seq<char>, Seq<(Seq<char>, (Seq<char>, Seq<char>, Seq<Seq<char>>))>),
> {
    if has_element(fws) {
        attribute::spec_element_attributes()
    } else {
        Seq::empty()
    }
}

/// The global attribute table the framework set earns.
pub open spec fn spec_global_attributes_for(fws: Seq<Seq<char>>, ts: Seq<char>) -> Seq<
    (Seq<char>, (Seq<char>, Seq<char>, Seq<Seq<char>>)),
> {
    if has_element(fws) {
        global_attribute::spec_element_global_attributes()
    } else {
        Seq::empty()
    }
}

/// Merged attributes for the given frameworks.
pub fn get_attributes(frameworks: &Vec<String>, tab_size: &str) -> (r: Vec<
    (String, Vec<(String, AttrInfo)>),
>)
    ensures
        tag_attr_table_view(r@) == spec_attributes_for(fw_view(frameworks), tab_size@),
{
    if has_element_check(frameworks) {
        attribute::get_element_ui_attributes()
    } else {
        let r: Vec<(String, Vec<(String, AttrInfo)>)> = Vec::new();
        proof {
            assert(tag_attr_table_view(r@) =~= Seq::<
                (Seq<char>, Seq<(Seq<char>, (Seq<char>, Seq<char>, Seq<Seq<char>>))>),
            >::empty());
        }
        r
    }
}

/// Merged tags for the given frameworks.
pub fn get_tags(frameworks: &Vec<String>, tab_size: &str) -> (r: Vec<(String, String)>)
    ensures
        str_table_view(r@) == spec_tags_for(fw_view(frameworks), tab_size@),
{
    if has_element_check(frameworks) {
        tag::get_element_ui_tags(tab_size)
    } else {
        let r: Vec<(String, String)> = Vec::new();
        proof {
            assert(str_table_view(r@) =~= Seq::<(Seq<char>, Seq<char>)>::empty());
        }
        r
    }
}

/// Merged script snippets for the given frameworks.
pub fn get_js_tags(frameworks: &Vec<String>, tab_size: &str) -> (r: Vec<(String, String)>)
    ensures
        str_table_view(r@) == spec_js_tags_for(fw_view(frameworks), tab_size@),
{
    if has_element_check(frameworks) {
        js_tag::get_element_ui_js_tags(tab_size)
    } else {
        let r: Vec<(String, String)> = Vec::new();
        proof {
            assert(str_table_view(r@) =~= Seq::<(Seq<char>, Seq<char>)>::empty());
        }
        r
    }
}

/// Merged hover documents for the given frameworks.
pub fn get_documents(frameworks: &Vec<String>, tab_size: &str) -> (r: Vec<(String, String)>)
    ensures
        str_table_view(r@) == spec_documents_for(fw_view(frameworks), tab_size@),
{
    if has_element_check(frameworks) {
        document::get_element_ui_documents()
    } else {
        let r: Vec<(String, String)> = Vec::new();
        proof {
            assert(str_table_view(r@) =~= Seq::<(Seq<char>, Seq<char>)>::empty());
        }
        r
    }
}

/// Merged global attributes for the given frameworks.
pub fn get_global_attributes(frameworks: &Vec<String>, tab_size: &str) -> (r: Vec<
    (String, AttrInfo),
>)
    ensures
        attr_table_view(r@) == spec_global_attributes_for(fw_view(frameworks), tab_size@),
{
    if has_element_check(frameworks) {
        global_attribute::get_element_ui_global_attributes()
    } else {
        let r: Vec<(String, AttrInfo)> = Vec::new();
        proof {
            assert(attr_table_view(r@) =~= Seq::<
                (Seq<char>, (Seq<char>, Seq<char>, Seq<Seq<char>>)),
            >::empty());
        }
        r
    }
}

/// Lexicographic order on character sequences by code point; the shorter
/// prefix comes first.
pub open spec fn seq_le(a: Seq<char>, b: Seq<char>) -> bool
    decreases a.len(),
{
    if a.len() == 0 {
        true
    } else if b.len() == 0 {
        false
    } else if a[0] != b[0] {
        (a[0] as u32) < (b[0] as u32)
    } else {
        seq_le(a.subrange(1, a.len() as int), b.subrange(1, b.len() as int))
    }
}

fn str_le(a: &str, b: &str) -> (r: bool)
    ensures
        r == seq_le(a@, b@),
{
    let an = a.unicode_len();
    let bn = b.unicode_len();
    let mut i: usize = 0;
    proof {
        assert(a@.subrange(0, an as int) =~= a@);
        assert(b@.subrange(0, bn as int) =~= b@);
    }
    loop
        invariant
            0 <= i <= an,
            i <= bn,
            an == a@.len(),
            bn == b@.len(),
            seq_le(a@, b@) == seq_le(
                a@.subrange(i as int, an as int),
                b@.subrange(i as int, bn as int),
            ),
        decreases an - i,
    {
        proof {
            let at = a@.subrange(i as int, an as int);
            let bt = b@.subrange(i as int, bn as int);
            if i < an && i < bn {
                assert(at[0] == a@[i as int]);
                assert(bt[0] == b@[i as int]);
                assert(at.subrange(1, at.len() as int) =~= a@.subrange(i + 1, an as int));
                assert(bt.subrange(1, bt.len() as int) =~= b@.subrange(i + 1, bn as int));
            }
        }
        if i >= an {
            return true;
        }
        if i >= bn {
            return false;
        }
        let ca = a.get_char(i);
        let cb = b.get_char(i);
        if ca != cb {
            return (ca as u32) < (cb as u32);
        }
        i = i + 1;
    }
}

/// `x` inserted in front of the first entry it does not come after.
pub open spec fn insert_sorted(x: Seq<char>, l: Seq<Seq<char>>) -> Seq<Seq<char>>
    decreases l.len(),
{
    if l.len() == 0 {
        seq![x]
    } else if seq_le(x, l[0]) {
        seq![x] + l
    } else {
        seq![l[0]] + insert_sorted(x, l.subrange(1, l.len() as int))
    }
}

/// The framework names in lexicographic order.
pub open spec fn sort_strs(l: Seq<Seq<char>>) -> Seq<Seq<char>>
    decreases l.len(),
{
    if l.len() == 0 {
        Seq::<Seq<char>>::empty()
    } else {
        insert_sorted(l[0], sort_strs(l.subrange(1, l.len() as int)))
    }
}

proof fn lemma_insert_at(x: Seq<char>, l: Seq<Seq<char>>, idx: int)
    requires
        0 <= idx <= l.len(),
        forall|j: int| 0 <= j < idx ==> !seq_le(x, #[trigger] l[j]),
        idx < l.len() ==> seq_le(x, l[idx]),
    ensures
        insert_sorted(x, l) == l.subrange(0, idx) + seq![x] + l.subrange(idx, l.len() as int),
    decreases idx,
{
    if l.len() == 0 {
        assert(insert_sorted(x, l) =~~= l.subrange(0, 0) + seq![x] + l.subrange(0, 0));
    } else if idx == 0 {
        assert(insert_sorted(x, l) =~~= l.subrange(0, 0) + seq![x] + l.subrange(0, l.len() as int));
    } else {
        let tail = l.subrange(1, l.len() as int);
        assert forall|j: int| 0 <= j < idx - 1 implies !seq_le(x, #[trigger] tail[j]) by {
            assert(tail[j] == l[j + 1]);
        }
        if idx - 1 < tail.len() {
            assert(tail[idx - 1] == l[idx]);
        }
        lemma_insert_at(x, tail, idx - 1);
        assert(insert_sorted(x, l) =~~= l.subrange(0, idx) + seq![x] + l.subrange(
            idx,
            l.len() as int,
        )) by {
            assert(tail.subrange(0, idx - 1) =~~= l.subrange(1, idx));
            assert(tail.subrange(idx - 1, tail.len() as int) =~~= l.subrange(idx, l.len() as int));
        }
    }
}

fn insert_sorted_exec(x: String, v: &mut Vec<String>)
    ensures
        final(v)@.map_values(|s: String| s@) == insert_sorted(x@, old(v)@.map_values(|s: String| s@)),
{
    let ghost lv = v@.map_values(|s: String| s@);
    let n = v.len();
    let mut idx: usize = 0;
    while idx < n && !str_le(x.as_str(), v[idx].as_str())
        invariant
            0 <= idx <= n,
            n == v@.len(),
            lv == v@.map_values(|s: String| s@),
            forall|j: int| 0 <= j < idx ==> !seq_le(x@, #[trigger] lv[j]),
        decreases n - idx,
    {
        idx = idx + 1;
    }
    proof {
        lemma_insert_at(x@, lv, idx as int);
    }
    v.insert(idx, x);
    proof {
        assert(v@.map_values(|s: String| s@) =~~= lv.subrange(0, idx as int) + seq![x@]
            + lv.subrange(idx as int, lv.len() as int)) by {
            assert(v@ == old(v)@.insert(idx as int, x));
        }
    }
}

/// The framework names sorted lexicographically.
fn sort_strings(v: &Vec<String>) -> (r: Vec<String>)
    ensures
        r@.map_values(|s: String| s@) == sort_strs(fw_view(v)),
{
    let ghost fv = fw_view(v);
    let n = v.len();
    let mut acc: Vec<String> = Vec::new();
    let mut k: usize = n;
    proof {
        assert(acc@.map_values(|s: String| s@) =~~= sort_strs(fv.subrange(n as int, n as int)));
    }
    while k > 0
        invariant
            0 <= k <= n,
            n == fv.len(),
            fv == fw_view(v),
            acc@.map_values(|s: String| s@) == sort_strs(fv.subrange(k as int, n as int)),
        decreases k,
    {
        k = k - 1;
        let x = v[k].as_str().to_owned();
        insert_sorted_exec(x, &mut acc);
        proof {
            let sub = fv.subrange(k as int, n as int);
            assert(sub[0] == fv[k as int]);
            assert(sub.subrange(1, sub.len() as int) =~= fv.subrange(k + 1, n as int));
        }
    }
    proof {
        assert(fv.subrange(0, n as int) =~= fv);
    }
    acc
}

/// The comma-joined names from index `i` on.
pub open spec fn join_comma_from(parts: Seq<Seq<char>>, i: int) -> Seq<char>
    decreases parts.len() - i,
{
    if i < 0 || i >= parts.len() {
        Seq::<char>::empty()
    } else {
        (if i > 0 {
            seq![',']
        } else {
            Seq::<char>::empty()
        }) + parts[i] + join_comma_from(parts, i + 1)
    }
}

/// The cache key: the sorted framework names joined with commas, a bar,
/// and the indentation unit.
pub open spec fn spec_cache_key(fws: Seq<Seq<char>>, ts: Seq<char>) -> Seq<char> {
    join_comma_from(sort_strs(fws), 0) + "|"@ + ts
}

/// Build the cache key from the framework set and the indentation unit.
pub fn make_cache_key(frameworks: &Vec<String>, tab_size: &str) -> (r: String)
    ensures
        r@ == spec_cache_key(fw_view(frameworks), tab_size@),
{
    let sorted = sort_strings(frameworks);
    let ghost sv = sort_strs(fw_view(frameworks));
    let n = sorted.len();
    let mut out = String::new();
    let mut i: usize = 0;
    proof {
        assert(out@ + join_comma_from(sv, 0) =~= join_comma_from(sv, 0));
    }
    while i < n
        invariant
            0 <= i <= n,
            n == sv.len(),
            sv == sorted@.map_values(|s: String| s@),
            out@ + join_comma_from(sv, i as int) == join_comma_from(sv, 0),
        decreases n - i,
    {
        let ghost before = out@;
        if i > 0 {
            out.append(",");
            proof {
                assert((",")@ =~= seq![',']) by {
                    reveal_strlit(",");
                }
            }
        }
        out.append(sorted[i].as_str());
        proof {
            let sep: Seq<char> = if i > 0 {
                seq![',']
            } else {
                Seq::<char>::empty()
            };
            assert(out@ =~= before + sep + sv[i as int]);
            assert(out@ + join_comma_from(sv, i + 1) =~= before + join_comma_from(sv, i as int));
        }
        i = i + 1;
    }
    out.append("|");
    out.append(tab_size);
    proof {
        assert(out@ =~= join_comma_from(sv, 0) + "|"@ + tab_size@);
    }
    out
}

/// One generation of framework metadata: the key it was built for and the
/// seven tables.
pub struct FrameworkCache {
    pub key: String,
    pub attributes: Vec<(String, Vec<(String, AttrInfo)>)>,
    pub tags: Vec<(String, String)>,
    pub js_tags: Vec<(String, String)>,
    pub documents: Vec<(String, String)>,
    pub global_attributes: Vec<(String, AttrInfo)>,
    pub snippets_html: Vec<(String, String)>,
    pub snippets_js: Vec<(String, String)>,
}

/// The cache slot a host passes by handle: at most one generation.
pub struct CacheStore {
    pub entry: Option<Arc<FrameworkCache>>,
}

impl CacheStore {
    /// An empty cache slot.
    pub fn new() -> (r: CacheStore)
        ensures
            r.entry is None,
    {
        CacheStore { entry: None }
    }
}

/// All tables of `c` are the ones the framework set and indentation unit
/// earn.
pub open spec fn cache_tables_exact(c: FrameworkCache, fws: Seq<Seq<char>>, ts: Seq<char>) -> bool {
    &&& tag_attr_table_view(c.attributes@) == spec_attributes_for(fws, ts)
    &&& str_table_view(c.tags@) == spec_tags_for(fws, ts)
    &&& str_table_view(c.js_tags@) == spec_js_tags_for(fws, ts)
    &&& str_table_view(c.documents@) == spec_documents_for(fws, ts)
    &&& attr_table_view(c.global_attributes@) == spec_global_attributes_for(fws, ts)
    &&& str_table_view(c.snippets_html@) == snippets_html::spec_snippets_html(ts)
    &&& str_table_view(c.snippets_js@) == snippets_js::spec_snippets_js(ts)
}

/// Relies on Arc::clone: the clone refers to the same allocation, so it
/// carries the same value.
#[verifier::external_body]
fn arc_clone(a: &Arc<FrameworkCache>) -> (r: Arc<FrameworkCache>)
    ensures
        r == *a,
{
    Arc::clone(a)
}

/// The cached generation for this key, or a freshly built one: a hit
/// returns the stored generation unchanged; a miss rebuilds every table
/// and publishes the new generation in the slot.
pub fn get_cached_data(store: &mut CacheStore, frameworks: &Vec<String>, tab_size: &str) -> (r:
    Arc<FrameworkCache>)
    ensures
        r.key@ == spec_cache_key(fw_view(frameworks), tab_size@),
        final(store).entry == Some(r),
        (old(store).entry matches Some(c) && c.key@ == spec_cache_key(
            fw_view(frameworks),
            tab_size@,
        )) ==> Some(r) == old(store).entry,
        !(old(store).entry matches Some(c) && c.key@ == spec_cache_key(
            fw_view(frameworks),
            tab_size@,
        )) ==> cache_tables_exact(*r, fw_view(frameworks), tab_size@),
{
    let key = make_cache_key(frameworks, tab_size);
    let hit: bool = match &store.entry {
        Some(c) => str_eq(c.key.as_str(), key.as_str()),
        None => false,
    };
    if hit {
        match &store.entry {
            Some(c) => {
                return arc_clone(c);
            },
            None => {
                proof {
                    assert(false);
                }
            },
        }
    }
    let cache = FrameworkCache {
        key,
        attributes: get_attributes(frameworks, tab_size),
        tags: get_tags(frameworks, tab_size),
        js_tags: get_js_tags(frameworks, tab_size),
        documents: get_documents(frameworks, tab_size),
        global_attributes: get_global_attributes(frameworks, tab_size),
        snippets_html: snippets_html::get_snippets(tab_size),
        snippets_js: snippets_js::get_snippets(tab_size),
    };
    let arc = Arc::new(cache);
    let copy = arc_clone(&arc);
    store.entry = Some(copy);
    arc
}

/// Empty the cache slot; the next lookup rebuilds.
pub fn invalidate_cache(store: &mut CacheStore)
    ensures
        final(store).entry is None,
{
    store.entry = None;
}

/// The markup snippet table; it does not depend on the framework set.
pub fn get_vue_snippets_html(tab_size: &str) -> (r: Vec<(String, String)>)
    ensures
        str_table_view(r@) == snippets_html::spec_snippets_html(tab_size@),
{
    snippets_html::get_snippets(tab_size)
}

/// The script snippet table; it does not depend on the framework set.
pub fn get_vue_snippets_js(tab_size: &str) -> (r: Vec<(String, String)>)
    ensures
        str_table_view(r@) == snippets_js::spec_snippets_js(tab_size@),
{
    snippets_js::get_snippets(tab_size)
}

} // verus!
