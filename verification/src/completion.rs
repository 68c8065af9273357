//! Completion support: close-tag detection, tag and attribute context
//! matching, suggestion building from the framework tables, property
//! extraction from a component source, and kebab-case conversion.

use vstd::prelude::*;

use crate::text::{
    is_space, is_word, is_word_char, trim_view, trim_str, occurs_at, find_from, ws_run_end,
    skip_ws_idx, find_sub, find_sub_from, starts_with, str_eq, push_char, upper_of,
    lower_first_of, char_is_upper, char_lower_first, contains_sub, is_tag_char,
    is_tag_name_char,
};
use crate::framework_data::{
    AttrInfo, fw_view, spec_tags_for, spec_js_tags_for, spec_attributes_for,
    spec_global_attributes_for, str_table_view, attr_table_view, tag_attr_table_view,
    get_tags, get_js_tags, get_attributes, get_global_attributes, get_vue_snippets_html,
    get_vue_snippets_js,
};

verus! {

/// A completion suggestion handed to the host editor.
#[derive(Clone, Debug)]
pub struct CompletionSuggestion {
    pub label: String,
    pub sort_text: String,
    pub insert_text: String,
    /// "snippet", "property", "method", "value", "reference", "folder"
    pub kind: String,
    pub detail: String,
    pub documentation: String,
}

/// The mathematical content of one suggestion.
pub open spec fn sugg_view(c: CompletionSuggestion) -> (
    Seq<char>,
    Seq<char>,
    Seq<char>,
    Seq<char>,
    Seq<char>,
    Seq<char>,
) {
    (c.label@, c.sort_text@, c.insert_text@, c.kind@, c.detail@, c.documentation@)
}

/// The suggestions as tuples.
pub open spec fn suggs_view(v: Seq<CompletionSuggestion>) -> Seq<
    (Seq<char>, Seq<char>, Seq<char>, Seq<char>, Seq<char>, Seq<char>),
> {
    v.map_values(|c: CompletionSuggestion| sugg_view(c))
}

/// A tag name match with its offset on the line.
#[derive(Clone, Debug)]
pub struct TagMatch {
    pub text: String,
    pub offset: i32,
}

/// The decimal digit character for `d`.
pub open spec fn digit_char(d: int) -> char {
    if d == 0 {
        '0'
    } else if d == 1 {
        '1'
    } else if d == 2 {
        '2'
    } else if d == 3 {
        '3'
    } else if d == 4 {
        '4'
    } else if d == 5 {
        '5'
    } else if d == 6 {
        '6'
    } else if d == 7 {
        '7'
    } else if d == 8 {
        '8'
    } else {
        '9'
    }
}

/// The decimal rendering of a non-negative number.
pub open spec fn dec_str(n: int) -> Seq<char>
    decreases n,
{
    if n < 0 {
        Seq::<char>::empty()
    } else if n < 10 {
        seq![digit_char(n)]
    } else {
        dec_str(n / 10) + seq![digit_char(n % 10)]
    }
}

fn digit_of(d: u64) -> (r: char)
    requires
        d < 10,
    ensures
        r == digit_char(d as int),
{
    if d == 0 {
        '0'
    } else if d == 1 {
        '1'
    } else if d == 2 {
        '2'
    } else if d == 3 {
        '3'
    } else if d == 4 {
        '4'
    } else if d == 5 {
        '5'
    } else if d == 6 {
        '6'
    } else if d == 7 {
        '7'
    } else if d == 8 {
        '8'
    } else {
        '9'
    }
}

/// The decimal rendering of `n`.
fn dec_of(n: u64) -> (r: String)
    ensures
        r@ == dec_str(n as int),
    decreases n,
{
    if n < 10 {
        let mut s = String::new();
        push_char(&mut s, digit_of(n));
        proof {
            assert(s@ =~= seq![digit_char(n as int)]);
        }
        s
    } else {
        let mut s = dec_of(n / 10);
        push_char(&mut s, digit_of(n % 10));
        proof {
            assert(s@ =~= dec_str((n as int) / 10) + seq![digit_char((n as int) % 10)]);
        }
        s
    }
}

/// Whether the trimmed line is an import statement.
pub fn is_import_check(text: &str) -> (r: bool)
    ensures
        r == occurs_at(trim_view(text@), "import"@, 0),
{
    starts_with(trim_str(text), "import")
}

/// Whether a script-opening line stands at or above the cursor line,
/// strictly below the first line.
pub open spec fn spec_not_in_template(doc: Seq<Seq<char>>, cur: int) -> bool {
    exists|k: int| 1 <= k <= cur && crate::definition::script_start_line(#[trigger] doc[k])
}

/// Whether the position is past a script-opening line (so not in the
/// markup template).  The first line of the document is never examined.
pub fn not_in_template(lines: &Vec<String>, current_line: usize) -> (r: bool)
    requires
        current_line < lines@.len(),
    ensures
        r == spec_not_in_template(crate::assist::doc_view(lines), current_line as int),
{
    let ghost doc = crate::assist::doc_view(lines);
    let mut line = current_line;
    while line > 0
        invariant
            0 <= line <= current_line < doc.len(),
            doc == crate::assist::doc_view(lines),
            forall|k: int|
                line < k <= current_line ==> !crate::definition::script_start_line(
                    #[trigger] doc[k],
                ),
        decreases line,
    {
        if crate::definition::script_start_check(lines[line].as_str()) {
            proof {
                assert(crate::definition::script_start_line(doc[line as int]));
            }
            return true;
        }
        line = line - 1;
    }
    false
}

/// Kebab-case of `s` from index `i` on: every uppercase letter after the
/// first character gains exactly one preceding dash and becomes its
/// lowercase form.
pub open spec fn kebab_from(s: Seq<char>, i: int) -> Seq<char>
    decreases s.len() - i,
{
    if i < 0 || i >= s.len() {
        Seq::<char>::empty()
    } else {
        (if upper_of(s[i]) {
            (if i > 0 {
                seq!['-']
            } else {
                Seq::<char>::empty()
            }) + seq![lower_first_of(s[i])]
        } else {
            seq![s[i]]
        }) + kebab_from(s, i + 1)
    }
}

/// Kebab-case of `s`.
pub open spec fn kebab_of(s: Seq<char>) -> Seq<char> {
    kebab_from(s, 0)
}

/// Convert an identifier to kebab-case.
pub fn to_kebab_case(s: &str) -> (r: String)
    ensures
        r@ == kebab_of(s@),
{
    let n = s.unicode_len();
    let mut out = String::new();
    let mut i: usize = 0;
    proof {
        assert(out@ + kebab_from(s@, 0) =~= kebab_from(s@, 0));
    }
    while i < n
        invariant
            0 <= i <= n,
            n == s@.len(),
            out@ + kebab_from(s@, i as int) == kebab_of(s@),
        decreases n - i,
    {
        let ghost before = out@;
        let c = s.get_char(i);
        if char_is_upper(c) {
            if i > 0 {
                push_char(&mut out, '-');
            }
            push_char(&mut out, char_lower_first(c));
            proof {
                let sep: Seq<char> = if i > 0 {
                    seq!['-']
                } else {
                    Seq::<char>::empty()
                };
                assert(out@ =~= before + (sep + seq![lower_first_of(s@[i as int])]));
            }
        } else {
            push_char(&mut out, c);
            proof {
                assert(out@ =~= before + seq![s@[i as int]]);
            }
        }
        i = i + 1;
    }
    proof {
        assert(out@ =~= out@ + kebab_from(s@, n as int));
    }
    out
}

/// Number of uppercase characters of `s` after the first position,
/// counted from index `i` on.
pub open spec fn upper_tail_count(s: Seq<char>, i: int) -> nat
    decreases s.len() - i,
{
    if i < 0 || i >= s.len() {
        0
    } else {
        (if upper_of(s[i]) && i > 0 {
            1nat
        } else {
            0nat
        }) + upper_tail_count(s, i + 1)
    }
}

/// Kebab-case introduces exactly one separator per uppercase letter after
/// the first character, and nothing else: the converted length is the
/// original length plus the number of such letters.
pub proof fn law_kebab_one_separator_each(s: Seq<char>)
    ensures
        kebab_of(s).len() == s.len() + upper_tail_count(s, 0),
{
    lemma_kebab_len_from(s, 0);
}

proof fn lemma_kebab_len_from(s: Seq<char>, i: int)
    requires
        0 <= i <= s.len(),
    ensures
        kebab_from(s, i).len() == s.len() - i + upper_tail_count(s, i),
    decreases s.len() - i,
{
    if i < s.len() {
        lemma_kebab_len_from(s, i + 1);
    }
}

/// The suffix of the trimmed search text once a leading `import` keyword
/// is stripped.
pub open spec fn spec_import_search(text: Seq<char>) -> Seq<char> {
    let t = trim_view(text);
    if occurs_at(t, "import"@, 0) {
        trim_view(t.subrange(6, t.len() as int))
    } else {
        t
    }
}

/// The import suggestions for the files whose name or path contains the
/// search text, from index `i` on.
pub open spec fn import_suggs(files: Seq<(Seq<char>, Seq<char>)>, search: Seq<char>, i: int) -> Seq<
    (Seq<char>, Seq<char>, Seq<char>, Seq<char>, Seq<char>, Seq<char>),
>
    decreases files.len() - i,
{
    if i < 0 || i >= files.len() {
        Seq::empty()
    } else {
        let name = files[i].0;
        let path = files[i].1;
        (if contains_sub(path, search) || contains_sub(name, search) {
            let insert_path = if path.len() >= 3 && path.subrange(path.len() - 3, path.len() as int)
                == ".ts"@ {
                path.subrange(0, path.len() - 3)
            } else {
                path
            };
            seq![
                (
                    name,
                    "0"@ + name,
                    "${1:"@ + name + "} from '"@ + insert_path + "'"@,
                    "reference"@,
                    name,
                    "import "@ + name + " from "@ + path,
                ),
            ]
        } else {
            Seq::empty()
        }) + import_suggs(files, search, i + 1)
    }
}

/// Import suggestions matching the search text against the indexed files.
pub fn get_import_suggestion_items(
    search_text: &str,
    vue_files: &Vec<crate::traverse::VueFile>,
    document_path: &str,
    project_root: &str,
) -> (r: Vec<CompletionSuggestion>)
    ensures
        ({
            let search = spec_import_search(search_text@);
            let files = crate::traverse::files_view(vue_files@);
            suggs_view(r@) == (if search.len() == 0 {
                Seq::empty()
            } else {
                import_suggs(files, search, 0)
            })
        }),
{
    let ghost files = crate::traverse::files_view(vue_files@);
    let t = trim_str(search_text);
    let search: &str = if starts_with(t, "import") {
        proof {
            reveal_strlit("import");
        }
        trim_str(t.substring_char(6, t.unicode_len()))
    } else {
        t
    };
    proof {
        assert(search@ == spec_import_search(search_text@));
    }
    let mut out: Vec<CompletionSuggestion> = Vec::new();
    if search.unicode_len() == 0 {
        proof {
            assert(suggs_view(out@) =~~= Seq::<
                (Seq<char>, Seq<char>, Seq<char>, Seq<char>, Seq<char>, Seq<char>),
            >::empty());
        }
        return out;
    }
    let n = vue_files.len();
    let mut i: usize = 0;
    proof {
        assert(suggs_view(out@) + import_suggs(files, search@, 0) =~~= import_suggs(
            files,
            search@,
            0,
        ));
    }
    while i < n
        invariant
            0 <= i <= n,
            n == files.len(),
            files == crate::traverse::files_view(vue_files@),
            search@.len() > 0,
            suggs_view(out@) + import_suggs(files, search@, i as int) == import_suggs(
                files,
                search@,
                0,
            ),
        decreases n - i,
    {
        let ghost before = suggs_view(out@);
        let name: &str = vue_files[i].name.as_str();
        let path: &str = vue_files[i].path.as_str();
        let hit = match find_sub(path, search) {
            Some(_) => true,
            None => match find_sub(name, search) {
                Some(_) => true,
                None => false,
            },
        };
        proof {
            assert(files[i as int] == (name@, path@));
        }
        if hit {
            proof {
                reveal_strlit(".ts");
            }
            let plen = path.unicode_len();
            let insert_path: &str = if plen >= 3 && crate::text::ends_with(path, ".ts") {
                path.substring_char(0, plen - 3)
            } else {
                proof {
                    assert(path@.subrange(0, plen as int) =~= path@);
                    if plen >= 3 && path@.subrange(plen - 3, plen as int) == ".ts"@ {
                        assert(occurs_at(path@, ".ts"@, plen - 3));
                    }
                }
                path.substring_char(0, plen)
            };
            let mut sort = "0".to_owned();
            sort.append(name);
            let mut insert = "${1:".to_owned();
            insert.append(name);
            insert.append("} from '");
            insert.append(insert_path);
            insert.append("'");
            let mut doc = "import ".to_owned();
            doc.append(name);
            doc.append(" from ");
            doc.append(path);
            out.push(
                CompletionSuggestion {
                    label: name.to_owned(),
                    sort_text: sort,
                    insert_text: insert,
                    kind: "reference".to_owned(),
                    detail: name.to_owned(),
                    documentation: doc,
                },
            );
            proof {
                let entry = (
                    name@,
                    "0"@ + name@,
                    "${1:"@ + name@ + "} from '"@ + insert_path@ + "'"@,
                    "reference"@,
                    name@,
                    "import "@ + name@ + " from "@ + path@,
                );
                assert(suggs_view(out@) =~~= before + seq![entry]);
                assert(suggs_view(out@) + import_suggs(files, search@, i + 1) =~~= before
                    + import_suggs(files, search@, i as int));
            }
        } else {
            proof {
                assert(suggs_view(out@) + import_suggs(files, search@, i + 1) =~~= before
                    + import_suggs(files, search@, i as int));
            }
        }
        i = i + 1;
    }
    proof {
        assert(suggs_view(out@) =~~= suggs_view(out@) + import_suggs(files, search@, n as int));
    }
    out
}

/// One attribute entry: name, then kind, documentation and values.
pub open spec fn snip_suggs(tbl: Seq<(Seq<char>, Seq<char>)>, from: int, id: int) -> Seq<
    (Seq<char>, Seq<char>, Seq<char>, Seq<char>, Seq<char>, Seq<char>),
>
    decreases tbl.len() - from,
{
    if from < 0 || from >= tbl.len() {
        Seq::empty()
    } else {
        seq![
            (
                tbl[from].0,
                "0"@ + dec_str(id) + tbl[from].0,
                tbl[from].1,
                "snippet"@,
                "vue-helper"@,
                Seq::<char>::empty(),
            ),
        ] + snip_suggs(tbl, from + 1, id + 1)
    }
}

/// The tag entries that follow the snippets, with documentation carrying
/// the snippet itself when `with_doc` is set.
pub open spec fn tag_suggs(
    tbl: Seq<(Seq<char>, Seq<char>)>,
    from: int,
    id: int,
    with_doc: bool,
) -> Seq<(Seq<char>, Seq<char>, Seq<char>, Seq<char>, Seq<char>, Seq<char>)>
    decreases tbl.len() - from,
{
    if from < 0 || from >= tbl.len() {
        Seq::empty()
    } else {
        seq![
            (
                tbl[from].0,
                "00"@ + dec_str(id) + tbl[from].0,
                tbl[from].1,
                "snippet"@,
                "vue-helper"@,
                if with_doc {
                    tbl[from].1
                } else {
                    Seq::<char>::empty()
                },
            ),
        ] + tag_suggs(tbl, from + 1, id + 1, with_doc)
    }
}

/// The markup tag completions: the general snippets first when asked for,
/// then the framework tags, numbered consecutively from one.
pub open spec fn spec_tag_suggestions(fws: Seq<Seq<char>>, ts: Seq<char>, use_snips: bool) -> Seq<
    (Seq<char>, Seq<char>, Seq<char>, Seq<char>, Seq<char>, Seq<char>),
> {
    let snips = crate::framework_data::snippets_html::spec_snippets_html(ts);
    (if use_snips {
        snip_suggs(snips, 0, 1)
    } else {
        Seq::empty()
    }) + tag_suggs(
        spec_tags_for(fws, ts),
        0,
        1 + (if use_snips {
            snips.len() as int
        } else {
            0int
        }),
        false,
    )
}

/// The script tag completions, documentation carrying the snippet.
pub open spec fn spec_js_tag_suggestions(
    fws: Seq<Seq<char>>,
    ts: Seq<char>,
    use_snips: bool,
) -> Seq<(Seq<char>, Seq<char>, Seq<char>, Seq<char>, Seq<char>, Seq<char>)> {
    let snips = crate::framework_data::snippets_js::spec_snippets_js(ts);
    (if use_snips {
        snip_suggs(snips, 0, 1)
    } else {
        Seq::empty()
    }) + tag_suggs(
        spec_js_tags_for(fws, ts),
        0,
        1 + (if use_snips {
            snips.len() as int
        } else {
            0int
        }),
        true,
    )
}

fn push_snip_suggs(
    out: &mut Vec<CompletionSuggestion>,
    tbl: &Vec<(String, String)>,
    id0: usize,
)
    requires
        id0 + tbl@.len() <= 0xFFFF_FFFF,
    ensures
        suggs_view(final(out)@) == suggs_view(old(out)@) + snip_suggs(
            str_table_view(tbl@),
            0,
            id0 as int,
        ),
{
    let ghost tv = str_table_view(tbl@);
    let ghost before = suggs_view(out@);
    let n = tbl.len();
    let mut k: usize = 0;
    proof {
        assert(suggs_view(out@) + snip_suggs(tv, 0, id0 as int) =~~= before + snip_suggs(
            tv,
            0,
            id0 as int,
        ));
    }
    while k < n
        invariant
            0 <= k <= n,
            n == tv.len(),
            tv == str_table_view(tbl@),
            id0 + n <= 0xFFFF_FFFF,
            suggs_view(out@) + snip_suggs(tv, k as int, id0 + k) == before + snip_suggs(
                tv,
                0,
                id0 as int,
            ),
        decreases n - k,
    {
        let ghost mid = suggs_view(out@);
        let key: &str = tbl[k].0.as_str();
        let snip: &str = tbl[k].1.as_str();
        let mut sort = "0".to_owned();
        sort.append(dec_of((id0 + k) as u64).as_str());
        sort.append(key);
        out.push(
            CompletionSuggestion {
                label: key.to_owned(),
                sort_text: sort,
                insert_text: snip.to_owned(),
                kind: "snippet".to_owned(),
                detail: "vue-helper".to_owned(),
                documentation: String::new(),
            },
        );
        proof {
            assert(tv[k as int] == (key@, snip@));
            let entry = (
                key@,
                "0"@ + dec_str(id0 + k) + key@,
                snip@,
                "snippet"@,
                "vue-helper"@,
                Seq::<char>::empty(),
            );
            assert(suggs_view(out@) =~~= mid + seq![entry]);
            assert(suggs_view(out@) + snip_suggs(tv, k + 1, id0 + k + 1) =~~= mid + snip_suggs(
                tv,
                k as int,
                id0 + k,
            ));
        }
        k = k + 1;
    }
    proof {
        assert(suggs_view(out@) =~~= suggs_view(out@) + snip_suggs(tv, n as int, id0 + n));
    }
}

fn push_tag_suggs(
    out: &mut Vec<CompletionSuggestion>,
    tbl: &Vec<(String, String)>,
    id0: usize,
    with_doc: bool,
)
    requires
        id0 + tbl@.len() <= 0xFFFF_FFFF,
    ensures
        suggs_view(final(out)@) == suggs_view(old(out)@) + tag_suggs(
            str_table_view(tbl@),
            0,
            id0 as int,
            with_doc,
        ),
{
    let ghost tv = str_table_view(tbl@);
    let ghost before = suggs_view(out@);
    let n = tbl.len();
    let mut k: usize = 0;
    proof {
        assert(suggs_view(out@) + tag_suggs(tv, 0, id0 as int, with_doc) =~~= before + tag_suggs(
            tv,
            0,
            id0 as int,
            with_doc,
        ));
    }
    while k < n
        invariant
            0 <= k <= n,
            n == tv.len(),
            tv == str_table_view(tbl@),
            id0 + n <= 0xFFFF_FFFF,
            suggs_view(out@) + tag_suggs(tv, k as int, id0 + k, with_doc) == before + tag_suggs(
                tv,
                0,
                id0 as int,
                with_doc,
            ),
        decreases n - k,
    {
        let ghost mid = suggs_view(out@);
        let key: &str = tbl[k].0.as_str();
        let snip: &str = tbl[k].1.as_str();
        let mut sort = "00".to_owned();
        sort.append(dec_of((id0 + k) as u64).as_str());
        sort.append(key);
        let doc: String = if with_doc {
            snip.to_owned()
        } else {
            String::new()
        };
        out.push(
            CompletionSuggestion {
                label: key.to_owned(),
                sort_text: sort,
                insert_text: snip.to_owned(),
                kind: "snippet".to_owned(),
                detail: "vue-helper".to_owned(),
                documentation: doc,
            },
        );
        proof {
            assert(tv[k as int] == (key@, snip@));
            let entry = (
                key@,
                "00"@ + dec_str(id0 + k) + key@,
                snip@,
                "snippet"@,
                "vue-helper"@,
                if with_doc {
                    snip@
                } else {
                    Seq::<char>::empty()
                },
            );
            assert(suggs_view(out@) =~~= mid + seq![entry]);
            assert(suggs_view(out@) + tag_suggs(tv, k + 1, id0 + k + 1, with_doc) =~~= mid
                + tag_suggs(tv, k as int, id0 + k, with_doc));
        }
        k = k + 1;
    }
    proof {
        assert(suggs_view(out@) =~~= suggs_view(out@) + tag_suggs(tv, n as int, id0 + n, with_doc));
    }
}

/// Markup tag completions for the framework set.
pub fn get_tag_suggestions(frameworks: &Vec<String>, tab_size: &str, use_vue_snippets: bool) -> (r:
    Vec<CompletionSuggestion>)
    ensures
        suggs_view(r@) == spec_tag_suggestions(fw_view(frameworks), tab_size@, use_vue_snippets),
{
    let mut out: Vec<CompletionSuggestion> = Vec::new();
    let mut id: usize = 1;
    if use_vue_snippets {
        let snips = get_vue_snippets_html(tab_size);
        proof {
            assert(str_table_view(snips@).len() == 7);
        }
        push_snip_suggs(&mut out, &snips, 1);
        id = 1 + snips.len();
    }
    let tags = get_tags(frameworks, tab_size);
    proof {
        assert(str_table_view(tags@).len() <= 32);
    }
    push_tag_suggs(&mut out, &tags, id, false);
    proof {
        assert(suggs_view(out@) =~~= spec_tag_suggestions(
            fw_view(frameworks),
            tab_size@,
            use_vue_snippets,
        ));
    }
    out
}

/// Script tag completions for the framework set.
pub fn get_js_tag_suggestions(
    frameworks: &Vec<String>,
    tab_size: &str,
    use_vue_snippets: bool,
) -> (r: Vec<CompletionSuggestion>)
    ensures
        suggs_view(r@) == spec_js_tag_suggestions(fw_view(frameworks), tab_size@, use_vue_snippets),
{
    let mut out: Vec<CompletionSuggestion> = Vec::new();
    let mut id: usize = 1;
    if use_vue_snippets {
        let snips = get_vue_snippets_js(tab_size);
        proof {
            assert(str_table_view(snips@).len() == 4);
        }
        push_snip_suggs(&mut out, &snips, 1);
        id = 1 + snips.len();
    }
    let js_tags = get_js_tags(frameworks, tab_size);
    proof {
        assert(str_table_view(js_tags@).len() <= 32);
    }
    push_tag_suggs(&mut out, &js_tags, id, true);
    proof {
        assert(suggs_view(out@) =~~= spec_js_tag_suggestions(
            fw_view(frameworks),
            tab_size@,
            use_vue_snippets,
        ));
    }
    out
}

/// The attribute entries of one table that fit the asked kind, skipping
/// the reserved `_self` entry.
pub open spec fn attr_suggs(
    attrs: Seq<(Seq<char>, (Seq<char>, Seq<char>, Seq<Seq<char>>))>,
    atype: Seq<char>,
    kind: Seq<char>,
    from: int,
) -> Seq<(Seq<char>, Seq<char>, Seq<char>, Seq<char>, Seq<char>, Seq<char>)>
    decreases attrs.len() - from,
{
    if from < 0 || from >= attrs.len() {
        Seq::empty()
    } else {
        (if attrs[from].0 != "_self"@ && attrs[from].1.0 == atype {
            seq![
                (
                    attrs[from].0,
                    "000"@ + attrs[from].0,
                    attrs[from].0,
                    kind,
                    "vue-helper"@,
                    attrs[from].1.1,
                ),
            ]
        } else {
            Seq::empty()
        }) + attr_suggs(attrs, atype, kind, from + 1)
    }
}

/// First attribute table bound to `tag`.
pub open spec fn attrs_lookup(
    tbl: Seq<(Seq<char>, Seq<(Seq<char>, (Seq<char>, Seq<char>, Seq<Seq<char>>))>)>,
    tag: Seq<char>,
) -> Option<Seq<(Seq<char>, (Seq<char>, Seq<char>, Seq<Seq<char>>))>>
    decreases tbl.len(),
{
    if tbl.len() == 0 {
        None
    } else if tbl[0].0 == tag {
        Some(tbl[0].1)
    } else {
        attrs_lookup(tbl.subrange(1, tbl.len() as int), tag)
    }
}

/// First attribute record bound to `name`.
pub open spec fn info_lookup(
    attrs: Seq<(Seq<char>, (Seq<char>, Seq<char>, Seq<Seq<char>>))>,
    name: Seq<char>,
) -> Option<(Seq<char>, Seq<char>, Seq<Seq<char>>)>
    decreases attrs.len(),
{
    if attrs.len() == 0 {
        None
    } else if attrs[0].0 == name {
        Some(attrs[0].1)
    } else {
        info_lookup(attrs.subrange(1, attrs.len() as int), name)
    }
}

/// The attribute completions: a leading `@` in the typed prefix selects
/// the event methods, anything else the plain attributes; the tag's own
/// entries come first, the global ones after.
pub open spec fn spec_attr_suggestions(
    tag: Seq<char>,
    fws: Seq<Seq<char>>,
    ts: Seq<char>,
    prefix_type: Seq<char>,
) -> Seq<(Seq<char>, Seq<char>, Seq<char>, Seq<char>, Seq<char>, Seq<char>)> {
    let is_method = prefix_type.len() > 0 && prefix_type[0] == '@';
    let atype: Seq<char> = if is_method {
        "method"@
    } else {
        "attribute"@
    };
    let kind: Seq<char> = if is_method {
        "method"@
    } else {
        "property"@
    };
    (match attrs_lookup(spec_attributes_for(fws, ts), tag) {
        Some(attrs) => attr_suggs(attrs, atype, kind, 0),
        None => Seq::empty(),
    }) + attr_suggs(spec_global_attributes_for(fws, ts), atype, kind, 0)
}

fn push_attr_suggs(
    out: &mut Vec<CompletionSuggestion>,
    attrs: &Vec<(String, AttrInfo)>,
    atype: &str,
    kind: &str,
)
    ensures
        suggs_view(final(out)@) == suggs_view(old(out)@) + attr_suggs(
            attr_table_view(attrs@),
            atype@,
            kind@,
            0,
        ),
{
    let ghost av = attr_table_view(attrs@);
    let ghost before = suggs_view(out@);
    let n = attrs.len();
    let mut k: usize = 0;
    proof {
        assert(suggs_view(out@) + attr_suggs(av, atype@, kind@, 0) =~~= before + attr_suggs(
            av,
            atype@,
            kind@,
            0,
        ));
    }
    while k < n
        invariant
            0 <= k <= n,
            n == av.len(),
            av == attr_table_view(attrs@),
            suggs_view(out@) + attr_suggs(av, atype@, kind@, k as int) == before + attr_suggs(
                av,
                atype@,
                kind@,
                0,
            ),
        decreases n - k,
    {
        let ghost mid = suggs_view(out@);
        let name: &str = attrs[k].0.as_str();
        proof {
            assert(av[k as int] == (name@, crate::framework_data::attr_info_view(
                attrs@[k as int].1,
            )));
        }
        if !str_eq(name, "_self") && str_eq(attrs[k].1.attr_type.as_str(), atype) {
            let mut sort = "000".to_owned();
            sort.append(name);
            out.push(
                CompletionSuggestion {
                    label: name.to_owned(),
                    sort_text: sort,
                    insert_text: name.to_owned(),
                    kind: kind.to_owned(),
                    detail: "vue-helper".to_owned(),
                    documentation: attrs[k].1.description.as_str().to_owned(),
                },
            );
            proof {
                let entry = (
                    name@,
                    "000"@ + name@,
                    name@,
                    kind@,
                    "vue-helper"@,
                    av[k as int].1.1,
                );
                assert(suggs_view(out@) =~~= mid + seq![entry]);
                assert(suggs_view(out@) + attr_suggs(av, atype@, kind@, k + 1) =~~= mid
                    + attr_suggs(av, atype@, kind@, k as int));
            }
        } else {
            proof {
                assert(suggs_view(out@) + attr_suggs(av, atype@, kind@, k + 1) =~~= mid
                    + attr_suggs(av, atype@, kind@, k as int));
            }
        }
        k = k + 1;
    }
    proof {
        assert(suggs_view(out@) =~~= suggs_view(out@) + attr_suggs(av, atype@, kind@, n as int));
    }
}

/// Attribute completions for one tag under the framework set.
pub fn get_attr_suggestions(
    tag: &str,
    frameworks: &Vec<String>,
    tab_size: &str,
    prefix_type: &str,
) -> (r: Vec<CompletionSuggestion>)
    ensures
        suggs_view(r@) == spec_attr_suggestions(tag@, fw_view(frameworks), tab_size@, prefix_type@),
{
    let is_method = prefix_type.unicode_len() > 0 && prefix_type.get_char(0) == '@';
    let atype: &str = if is_method {
        "method"
    } else {
        "attribute"
    };
    let kind: &str = if is_method {
        "method"
    } else {
        "property"
    };
    let mut out: Vec<CompletionSuggestion> = Vec::new();
    let attributes = get_attributes(frameworks, tab_size);
    let ghost tav = tag_attr_table_view(attributes@);
    let n = attributes.len();
    let mut k: usize = 0;
    let mut found: bool = false;
    proof {
        assert(tav.subrange(0, n as int) =~= tav);
    }
    while k < n && !found
        invariant
            0 <= k <= n,
            n == tav.len(),
            tav == tag_attr_table_view(attributes@),
            !found ==> attrs_lookup(tav, tag@) == attrs_lookup(
                tav.subrange(k as int, n as int),
                tag@,
            ),
            !found ==> suggs_view(out@) =~= Seq::<
                (Seq<char>, Seq<char>, Seq<char>, Seq<char>, Seq<char>, Seq<char>),
            >::empty(),
            found ==> k >= 1 && attrs_lookup(tav, tag@) == Some(
                attr_table_view(attributes@[k - 1].1@),
            ) && suggs_view(out@) == attr_suggs(attr_table_view(attributes@[k - 1].1@), atype@, kind@, 0),
        decreases n - k,
    {
        proof {
            let sub = tav.subrange(k as int, n as int);
            assert(sub[0] == tav[k as int]);
            assert(sub.subrange(1, sub.len() as int) =~= tav.subrange(k + 1, n as int));
            assert(tav[k as int] == (attributes@[k as int].0@, attr_table_view(
                attributes@[k as int].1@,
            )));
        }
        if str_eq(attributes[k].0.as_str(), tag) {
            push_attr_suggs(&mut out, &attributes[k].1, atype, kind);
            found = true;
        }
        k = k + 1;
    }
    proof {
        if !found {
            assert(attrs_lookup(tav.subrange(n as int, n as int), tag@) is None);
        }
    }
    let global_attrs = get_global_attributes(frameworks, tab_size);
    push_attr_suggs(&mut out, &global_attrs, atype, kind);
    proof {
        assert(suggs_view(out@) =~~= spec_attr_suggestions(
            tag@,
            fw_view(frameworks),
            tab_size@,
            prefix_type@,
        ));
    }
    out
}

/// The value entries offered for one attribute.
pub open spec fn value_suggs(values: Seq<Seq<char>>, from: int) -> Seq<
    (Seq<char>, Seq<char>, Seq<char>, Seq<char>, Seq<char>, Seq<char>),
>
    decreases values.len() - from,
{
    if from < 0 || from >= values.len() {
        Seq::empty()
    } else {
        seq![
            (
                values[from],
                "000"@ + values[from],
                values[from],
                "value"@,
                "vue-helper"@,
                Seq::<char>::empty(),
            ),
        ] + value_suggs(values, from + 1)
    }
}

/// The enumerated values an attribute offers: the tag's own record wins
/// over the global one.
pub open spec fn spec_attr_values(
    tag: Seq<char>,
    attr: Seq<char>,
    fws: Seq<Seq<char>>,
    ts: Seq<char>,
) -> Seq<Seq<char>> {
    let tag_specific = match attrs_lookup(spec_attributes_for(fws, ts), tag) {
        Some(attrs) => info_lookup(attrs, attr),
        None => None,
    };
    match tag_specific {
        Some(info) => info.2,
        None => match info_lookup(spec_global_attributes_for(fws, ts), attr) {
            Some(info) => info.2,
            None => Seq::empty(),
        },
    }
}

/// Value completions for one attribute of one tag.
pub fn get_attr_value_suggestions(
    tag: &str,
    attr: &str,
    frameworks: &Vec<String>,
    tab_size: &str,
) -> (r: Vec<CompletionSuggestion>)
    ensures
        suggs_view(r@) == value_suggs(
            spec_attr_values(tag@, attr@, fw_view(frameworks), tab_size@),
            0,
        ),
{
    let global_attrs = get_global_attributes(frameworks, tab_size);
    let attributes = get_attributes(frameworks, tab_size);

    let mut values: Vec<String> = Vec::new();
    let mut have_tag_specific = false;

    // the tag's own record
    let ghost tav = tag_attr_table_view(attributes@);
    let n = attributes.len();
    let mut k: usize = 0;
    let mut found_tag: bool = false;
    proof {
        assert(tav.subrange(0, n as int) =~= tav);
    }
    while k < n && !found_tag
        invariant
            0 <= k <= n,
            n == tav.len(),
            tav == tag_attr_table_view(attributes@),
            !found_tag ==> attrs_lookup(tav, tag@) == attrs_lookup(
                tav.subrange(k as int, n as int),
                tag@,
            ),
            !found_tag ==> values@.len() == 0 && !have_tag_specific,
            found_tag ==> k >= 1 && attrs_lookup(tav, tag@) == Some(
                attr_table_view(attributes@[k - 1].1@),
            ) && (match info_lookup(attr_table_view(attributes@[k - 1].1@), attr@) {
                Some(info) => have_tag_specific && values.deep_view() == info.2,
                None => !have_tag_specific && values@.len() == 0,
            }),
        decreases n - k,
    {
        proof {
            let sub = tav.subrange(k as int, n as int);
            assert(sub[0] == tav[k as int]);
            assert(sub.subrange(1, sub.len() as int) =~= tav.subrange(k + 1, n as int));
            assert(tav[k as int] == (attributes@[k as int].0@, attr_table_view(
                attributes@[k as int].1@,
            )));
        }
        if str_eq(attributes[k].0.as_str(), tag) {
            match find_attr_values(&attributes[k].1, attr) {
                Some(v) => {
                    values = v;
                    have_tag_specific = true;
                },
                None => {},
            }
            found_tag = true;
        }
        k = k + 1;
    }
    proof {
        if !found_tag {
            assert(attrs_lookup(tav.subrange(n as int, n as int), tag@) is None);
        }
    }

    if !have_tag_specific {
        match find_attr_values(&global_attrs, attr) {
            Some(v) => {
                values = v;
            },
            None => {},
        }
    }

    proof {
        assert(values.deep_view() =~~= spec_attr_values(tag@, attr@, fw_view(frameworks), tab_size@));
    }

    let mut out: Vec<CompletionSuggestion> = Vec::new();
    let vn = values.len();
    let mut i: usize = 0;
    proof {
        assert(suggs_view(out@) + value_suggs(values.deep_view(), 0) =~~= value_suggs(
            values.deep_view(),
            0,
        ));
    }
    while i < vn
        invariant
            0 <= i <= vn,
            vn == values.deep_view().len(),
            suggs_view(out@) + value_suggs(values.deep_view(), i as int) == value_suggs(
                values.deep_view(),
                0,
            ),
        decreases vn - i,
    {
        let ghost mid = suggs_view(out@);
        let ghost vv = values.deep_view();
        let value: &str = values[i].as_str();
        let mut sort = "000".to_owned();
        sort.append(value);
        out.push(
            CompletionSuggestion {
                label: value.to_owned(),
                sort_text: sort,
                insert_text: value.to_owned(),
                kind: "value".to_owned(),
                detail: "vue-helper".to_owned(),
                documentation: String::new(),
            },
        );
        proof {
            assert(vv[i as int] == values@[i as int]@);
            let entry = (
                vv[i as int],
                "000"@ + vv[i as int],
                vv[i as int],
                "value"@,
                "vue-helper"@,
                Seq::<char>::empty(),
            );
            assert(suggs_view(out@) =~~= mid + seq![entry]);
            assert(suggs_view(out@) + value_suggs(vv, i + 1) =~~= mid + value_suggs(vv, i as int));
        }
        i = i + 1;
    }
    proof {
        assert(suggs_view(out@) =~~= suggs_view(out@) + value_suggs(
            values.deep_view(),
            vn as int,
        ));
    }
    out
}

/// The values of the first record bound to `attr`, if any.
fn find_attr_values(attrs: &Vec<(String, AttrInfo)>, attr: &str) -> (r: Option<Vec<String>>)
    ensures
        match r {
            Some(v) => info_lookup(attr_table_view(attrs@), attr@) matches Some(info)
                && v.deep_view() == info.2,
            None => info_lookup(attr_table_view(attrs@), attr@) is None,
        },
{
    let ghost av = attr_table_view(attrs@);
    let n = attrs.len();
    let mut k: usize = 0;
    proof {
        assert(av.subrange(0, n as int) =~= av);
    }
    while k < n
        invariant
            0 <= k <= n,
            n == av.len(),
            av == attr_table_view(attrs@),
            info_lookup(av, attr@) == info_lookup(av.subrange(k as int, n as int), attr@),
        decreases n - k,
    {
        proof {
            let sub = av.subrange(k as int, n as int);
            assert(sub[0] == av[k as int]);
            assert(sub.subrange(1, sub.len() as int) =~= av.subrange(k + 1, n as int));
            assert(av[k as int] == (attrs@[k as int].0@, crate::framework_data::attr_info_view(
                attrs@[k as int].1,
            )));
        }
        if str_eq(attrs[k].0.as_str(), attr) {
            let mut copy: Vec<String> = Vec::new();
            let vals: &Vec<String> = &attrs[k].1.values;
            let m = vals.len();
            let mut j: usize = 0;
            while j < m
                invariant
                    0 <= j <= m,
                    m == vals@.len(),
                    copy.deep_view() =~= vals.deep_view().subrange(0, j as int),
                decreases m - j,
            {
                let ghost bdv = copy.deep_view();
                copy.push(vals[j].as_str().to_owned());
                proof {
                    assert(copy.deep_view() =~~= bdv.push(vals@[j as int]@));
                    assert(vals.deep_view()[j as int] == vals@[j as int]@);
                    assert(copy.deep_view() =~~= vals.deep_view().subrange(0, j + 1));
                }
                j = j + 1;
            }
            proof {
                assert(copy.deep_view() =~~= vals.deep_view());
            }
            return Some(copy);
        }
        k = k + 1;
    }
    None
}

/// Position of the first colon in a table key, or its length.
pub open spec fn colon_pos(s: Seq<char>, i: int) -> int
    decreases s.len() - i,
{
    if i < 0 || i >= s.len() {
        s.len() as int
    } else if s[i] == ':' {
        i
    } else {
        colon_pos(s, i + 1)
    }
}

/// The tag label: the key up to its first colon.
pub open spec fn label_of(tag: Seq<char>) -> Seq<char> {
    tag.subrange(0, colon_pos(tag, 0))
}

fn label_prefix<'a>(s: &'a str) -> (r: &'a str)
    ensures
        r@ == label_of(s@),
{
    let n = s.unicode_len();
    let mut i: usize = 0;
    while i < n
        invariant
            0 <= i <= n,
            n == s@.len(),
            colon_pos(s@, 0) == colon_pos(s@, i as int),
        decreases n - i,
    {
        if s.get_char(i) == ':' {
            return s.substring_char(0, i);
        }
        i = i + 1;
    }
    proof {
        assert(s@.subrange(0, n as int) =~= s@);
    }
    s.substring_char(0, n)
}

/// One label entry per distinct tag label, numbered in first-seen order.
pub open spec fn label_suggs(
    tags: Seq<(Seq<char>, Seq<(Seq<char>, (Seq<char>, Seq<char>, Seq<Seq<char>>))>)>,
    from: int,
    seen: Seq<Seq<char>>,
    id: int,
    ext: Seq<char>,
) -> Seq<(Seq<char>, Seq<char>, Seq<char>, Seq<char>, Seq<char>, Seq<char>)>
    decreases tags.len() - from,
{
    if from < 0 || from >= tags.len() {
        Seq::empty()
    } else {
        let lbl = label_of(tags[from].0);
        if seen.contains(lbl) {
            label_suggs(tags, from + 1, seen, id, ext)
        } else {
            seq![
                (
                    lbl,
                    "00"@ + dec_str(id) + lbl,
                    lbl + "$0></"@ + lbl + ">"@,
                    "snippet"@,
                    ext,
                    Seq::<char>::empty(),
                ),
            ] + label_suggs(tags, from + 1, seen.push(lbl), id + 1, ext)
        }
    }
}

fn seen_contains(seen: &Vec<String>, l: &str) -> (r: bool)
    ensures
        r == seen@.map_values(|s: String| s@).contains(l@),
{
    let ghost sv = seen@.map_values(|s: String| s@);
    let n = seen.len();
    let mut k: usize = 0;
    while k < n
        invariant
            0 <= k <= n,
            n == sv.len(),
            sv == seen@.map_values(|s: String| s@),
            forall|j: int| 0 <= j < k ==> sv[j] != l@,
        decreases n - k,
    {
        if str_eq(seen[k].as_str(), l) {
            proof {
                assert(sv[k as int] == l@);
            }
            return true;
        }
        k = k + 1;
    }
    false
}

/// One closing-snippet entry per distinct tag label of the catalogue.
pub fn get_element_tag_label_suggestions(
    frameworks: &Vec<String>,
    tab_size: &str,
    extension_name: &str,
) -> (r: Vec<CompletionSuggestion>)
    ensures
        suggs_view(r@) == label_suggs(
            spec_attributes_for(fw_view(frameworks), tab_size@),
            0,
            Seq::<Seq<char>>::empty(),
            1,
            extension_name@,
        ),
{
    let attributes = get_attributes(frameworks, tab_size);
    let ghost tav = tag_attr_table_view(attributes@);
    let mut out: Vec<CompletionSuggestion> = Vec::new();
    let mut labels: Vec<String> = Vec::new();
    let mut id: usize = 1;
    let n = attributes.len();
    let mut k: usize = 0;
    proof {
        assert(tav.len() <= 64);
        assert(labels@.map_values(|s: String| s@) =~~= Seq::<Seq<char>>::empty());
        assert(suggs_view(out@) + label_suggs(tav, 0, labels@.map_values(|s: String| s@), 1, extension_name@)
            =~~= label_suggs(tav, 0, Seq::<Seq<char>>::empty(), 1, extension_name@));
    }
    while k < n
        invariant
            0 <= k <= n,
            n == tav.len(),
            n <= 64,
            tav == tag_attr_table_view(attributes@),
            1 <= id <= 1 + k,
            suggs_view(out@) + label_suggs(
                tav,
                k as int,
                labels@.map_values(|s: String| s@),
                id as int,
                extension_name@,
            ) == label_suggs(tav, 0, Seq::<Seq<char>>::empty(), 1, extension_name@),
        decreases n - k,
    {
        let ghost mid = suggs_view(out@);
        let ghost seen0 = labels@.map_values(|s: String| s@);
        let label: &str = label_prefix(attributes[k].0.as_str());
        proof {
            assert(tav[k as int].0 == attributes@[k as int].0@);
        }
        if !seen_contains(&labels, label) {
            labels.push(label.to_owned());
            let mut sort = "00".to_owned();
            sort.append(dec_of(id as u64).as_str());
            sort.append(label);
            let mut insert = label.to_owned();
            insert.append("$0></");
            insert.append(label);
            insert.append(">");
            out.push(
                CompletionSuggestion {
                    label: label.to_owned(),
                    sort_text: sort,
                    insert_text: insert,
                    kind: "snippet".to_owned(),
                    detail: extension_name.to_owned(),
                    documentation: String::new(),
                },
            );
            id = id + 1;
            proof {
                let entry = (
                    label@,
                    "00"@ + dec_str(id - 1) + label@,
                    label@ + "$0></"@ + label@ + ">"@,
                    "snippet"@,
                    extension_name@,
                    Seq::<char>::empty(),
                );
                assert(suggs_view(out@) =~~= mid + seq![entry]);
                assert(labels@.map_values(|s: String| s@) =~~= seen0.push(label@));
                assert(suggs_view(out@) + label_suggs(
                    tav,
                    k + 1,
                    labels@.map_values(|s: String| s@),
                    id as int,
                    extension_name@,
                ) =~~= mid + label_suggs(tav, k as int, seen0, id - 1, extension_name@));
            }
        } else {
            proof {
                assert(suggs_view(out@) + label_suggs(
                    tav,
                    k + 1,
                    labels@.map_values(|s: String| s@),
                    id as int,
                    extension_name@,
                ) =~~= mid + label_suggs(tav, k as int, seen0, id as int, extension_name@));
            }
        }
        k = k + 1;
    }
    proof {
        assert(suggs_view(out@) =~~= suggs_view(out@) + label_suggs(
            tav,
            n as int,
            labels@.map_values(|s: String| s@),
            id as int,
            extension_name@,
        ));
    }
    out
}

/// First position at or after `i` holding character `c`.
pub open spec fn char_from(s: Seq<char>, c: char, i: int) -> Option<int>
    decreases s.len() - i,
{
    if i < 0 || i >= s.len() {
        None
    } else if s[i] == c {
        Some(i)
    } else {
        char_from(s, c, i + 1)
    }
}

fn char_from_idx(s: &str, c: char, from: usize) -> (r: Option<usize>)
    requires
        from <= s@.len(),
    ensures
        match r {
            Some(i) => char_from(s@, c, from as int) == Some(i as int) && from <= i < s@.len()
                && s@[i as int] == c,
            None => char_from(s@, c, from as int) is None,
        },
{
    let n = s.unicode_len();
    let mut i: usize = from;
    while i < n
        invariant
            from <= i <= n,
            n == s@.len(),
            char_from(s@, c, from as int) == char_from(s@, c, i as int),
        decreases n - i,
    {
        if s.get_char(i) == c {
            return Some(i);
        }
        i = i + 1;
    }
    None
}

/// The text before the cursor ends inside a quoted attribute value whose
/// last character is the just-typed `>`: an `=`, a quote, characters other
/// than that quote, and the final `>`.
pub open spec fn attr_gt_at(t: Seq<char>, e: int) -> bool {
    &&& 0 <= e
    &&& e + 2 <= t.len() - 1
    &&& t[e] == '='
    &&& crate::definition::quoteish(t[e + 1])
    &&& t[t.len() - 1] == '>'
    &&& forall|k: int| e + 2 <= k < t.len() - 1 ==> #[trigger] t[k] != t[e + 1]
}

/// Some position of the text puts its final `>` inside an attribute value.
pub open spec fn attr_value_gt(t: Seq<char>) -> bool {
    exists|e: int| attr_gt_at(t, e)
}

fn attr_value_gt_check(t: &str) -> (r: bool)
    ensures
        r == attr_value_gt(t@),
{
    let n = t.unicode_len();
    if n < 3 || t.get_char(n - 1) != '>' {
        proof {
            assert(forall|e: int| !attr_gt_at(t@, e));
        }
        return false;
    }
    let mut e: usize = 0;
    while e <= n - 3
        invariant
            0 <= e,
            e <= n,
            3 <= n == t@.len(),
            t@[n - 1] == '>',
            forall|j: int| 0 <= j < e ==> !attr_gt_at(t@, j),
        decreases n - e,
    {
        if t.get_char(e) == '=' {
            let q = t.get_char(e + 1);
            if q == '"' || q == '\'' {
                match char_from_idx(t, q, e + 2) {
                    Some(i) => {
                        if i >= n - 1 {
                            proof {
                                assert forall|k: int|
                                    e + 2 <= k < n - 1 implies #[trigger] t@[k] != t@[e + 1] by {
                                    crate::completion::lemma_char_from_first(
                                        t@,
                                        q,
                                        e + 2,
                                        k,
                                    );
                                }
                                assert(attr_gt_at(t@, e as int));
                            }
                            return true;
                        } else {
                            proof {
                                assert(t@[i as int] == t@[e + 1]);
                                assert(!attr_gt_at(t@, e as int));
                            }
                        }
                    },
                    None => {
                        proof {
                            assert forall|k: int|
                                e + 2 <= k < n - 1 implies #[trigger] t@[k] != t@[e + 1] by {
                                crate::completion::lemma_char_from_none(t@, q, e + 2, k);
                            }
                            assert(attr_gt_at(t@, e as int));
                        }
                        return true;
                    },
                }
            } else {
                proof {
                    assert(!attr_gt_at(t@, e as int));
                }
            }
        } else {
            proof {
                assert(!attr_gt_at(t@, e as int));
            }
        }
        e = e + 1;
    }
    proof {
        assert forall|j: int| !attr_gt_at(t@, j) by {
            if 0 <= j && j + 2 <= n - 1 {
                assert(!attr_gt_at(t@, j));
            }
        }
    }
    false
}

proof fn lemma_char_from_first(s: Seq<char>, c: char, from: int, k: int)
    requires
        0 <= from <= k,
        match char_from(s, c, from) {
            Some(i) => k < i,
            None => k < s.len(),
        },
    ensures
        k < s.len() ==> s[k] != c,
    decreases k - from,
{
    if k > from {
        lemma_char_from_first(s, c, from + 1, k);
    }
}

proof fn lemma_char_from_none(s: Seq<char>, c: char, from: int, k: int)
    requires
        0 <= from <= k,
        char_from(s, c, from) is None,
    ensures
        k < s.len() ==> s[k] != c,
    decreases k - from,
{
    if k > from {
        lemma_char_from_none(s, c, from + 1, k);
    }
}

/// Attribute-name characters: identifier characters plus `: @ . -`.
pub open spec fn is_attr_char(c: char) -> bool {
    is_word(c) || c == ':' || c == '@' || c == '.' || c == '-'
}

fn is_attr_char_check(c: char) -> (r: bool)
    ensures
        r == is_attr_char(c),
{
    is_word_char(c) || c == ':' || c == '@' || c == '.' || c == '-'
}

/// End of the run of attribute-name characters starting at `j`.
pub open spec fn attr_run_end(t: Seq<char>, j: int) -> int
    decreases t.len() - j,
{
    if 0 <= j < t.len() && is_attr_char(t[j]) {
        attr_run_end(t, j + 1)
    } else {
        j
    }
}

fn attr_run_end_idx(t: &str, from: usize) -> (r: usize)
    requires
        from <= t@.len(),
    ensures
        r == attr_run_end(t@, from as int),
        from <= r <= t@.len(),
{
    let n = t.unicode_len();
    let mut i: usize = from;
    while i < n && is_attr_char_check(t.get_char(i))
        invariant
            from <= i <= n,
            n == t@.len(),
            attr_run_end(t@, from as int) == attr_run_end(t@, i as int),
        decreases n - i,
    {
        i = i + 1;
    }
    i
}

/// From position `k` after a tag name or attribute, the rest of a full
/// tag: optional whitespace and `>`, or whitespace, an attribute name, an
/// optional quoted value, and the rest again; yields the position right
/// after the closing `>`.
pub open spec fn attrs_end(t: Seq<char>, k: int) -> Option<int>
    decreases t.len() - k when 0 <= k <= t.len()
{
    let w = ws_run_end(t, k);
    if w < t.len() && t[w] == '>' {
        Some(w + 1)
    } else if w > k && w < t.len() && is_attr_char(t[w]) {
        let ae = attr_run_end(t, w);
        if ae <= w {
            None
        } else if ae < t.len() && t[ae] == '=' {
            if ae + 1 < t.len() && crate::definition::quoteish(t[ae + 1]) {
                match char_from(t, t[ae + 1], ae + 2) {
                    Some(cq) => if cq + 1 > k && cq + 1 <= t.len() {
                        attrs_end(t, cq + 1)
                    } else {
                        None
                    },
                    None => None,
                }
            } else {
                None
            }
        } else if ae <= t.len() {
            attrs_end(t, ae)
        } else {
            None
        }
    } else {
        None
    }
}

fn attrs_end_check(t: &str, k0: usize) -> (r: Option<usize>)
    requires
        k0 <= t@.len(),
    ensures
        match r {
            Some(e) => attrs_end(t@, k0 as int) == Some(e as int) && k0 < e <= t@.len(),
            None => attrs_end(t@, k0 as int) is None,
        },
{
    let n = t.unicode_len();
    let mut k: usize = k0;
    loop
        invariant
            k0 <= k <= n,
            n == t@.len(),
            attrs_end(t@, k0 as int) == attrs_end(t@, k as int),
        decreases n - k,
    {
        let w = skip_ws_idx(t, k);
        if w < n && t.get_char(w) == '>' {
            return Some(w + 1);
        }
        if !(w > k && w < n && is_attr_char_check(t.get_char(w))) {
            return None;
        }
        let ae = attr_run_end_idx(t, w);
        if ae <= w {
            return None;
        }
        if ae < n && t.get_char(ae) == '=' {
            if ae + 1 < n && (t.get_char(ae + 1) == '"' || t.get_char(ae + 1) == '\'') {
                match char_from_idx(t, t.get_char(ae + 1), ae + 2) {
                    Some(cq) => {
                        k = cq + 1;
                    },
                    None => {
                        return None;
                    },
                }
            } else {
                return None;
            }
        } else {
            k = ae;
        }
    }
}

/// A full tag begins at `i`: `<`, a tag name, attributes, and `>`.
pub open spec fn tag_match_at(t: Seq<char>, i: int) -> bool {
    &&& 0 <= i
    &&& i + 1 < t.len()
    &&& t[i] == '<'
    &&& is_tag_char(t[i + 1])
    &&& {
        let ne = crate::assist::tag_run_end(t, i + 1);
        ne <= t.len() && attrs_end(t, ne) is Some
    }
}

/// The name bounds and end of the full tag beginning at `i`, if one does.
fn tag_end_here(t: &str, i: usize) -> (r: Option<(usize, usize)>)
    requires
        i < t@.len(),
    ensures
        match r {
            Some(p) => tag_match_at(t@, i as int) && p.0 == crate::assist::tag_run_end(t@, i + 1)
                && attrs_end(t@, p.0 as int) == Some(p.1 as int) && i + 1 <= p.0 && i < p.1
                <= t@.len(),
            None => !tag_match_at(t@, i as int),
        },
{
    let n = t.unicode_len();
    if !(i + 1 < n && t.get_char(i) == '<' && is_tag_name_char(t.get_char(i + 1))) {
        return None;
    }
    let ne = tag_name_end(t, i + 1);
    match attrs_end_check(t, ne) {
        Some(e) => Some((ne, e)),
        None => None,
    }
}

fn tag_match_at_check(t: &str, i: usize) -> (r: bool)
    requires
        i < t@.len(),
    ensures
        r == tag_match_at(t@, i as int),
{
    tag_end_here(t, i).is_some()
}

fn tag_name_end(t: &str, from: usize) -> (r: usize)
    requires
        from <= t@.len(),
    ensures
        r == crate::assist::tag_run_end(t@, from as int),
        from <= r <= t@.len(),
{
    let n = t.unicode_len();
    let mut i: usize = from;
    while i < n && is_tag_name_char(t.get_char(i))
        invariant
            from <= i <= n,
            n == t@.len(),
            crate::assist::tag_run_end(t@, from as int) == crate::assist::tag_run_end(
                t@,
                i as int,
            ),
        decreases n - i,
    {
        i = i + 1;
    }
    i
}

/// First position where a full tag begins.
pub open spec fn full_tag_from(t: Seq<char>, i: int) -> Option<int>
    decreases t.len() - i,
{
    if i < 0 || i >= t.len() {
        None
    } else if tag_match_at(t, i) {
        Some(i)
    } else {
        full_tag_from(t, i + 1)
    }
}

/// Whether the text before the cursor ends on a close-tag boundary: the
/// trimmed text ends with `>`, the `>` is not part of `/>` and not inside
/// a quoted attribute value, and a full tag stands on the line.
pub open spec fn spec_is_close_tag(text: Seq<char>) -> bool {
    let t = trim_view(text);
    &&& t.len() > 0
    &&& t[t.len() - 1] == '>'
    &&& !(t.len() >= 2 && t[t.len() - 2] == '/')
    &&& !attr_value_gt(t)
    &&& full_tag_from(t, 0) is Some
}

/// Whether the text before the cursor ends on a close-tag boundary.
pub fn is_close_tag_check(text: &str) -> (r: bool)
    ensures
        r == spec_is_close_tag(text@),
{
    let t = trim_str(text);
    let n = t.unicode_len();
    if n == 0 || t.get_char(n - 1) != '>' {
        return false;
    }
    if n >= 2 && t.get_char(n - 2) == '/' {
        return false;
    }
    if attr_value_gt_check(t) {
        return false;
    }
    let mut i: usize = 0;
    while i < n
        invariant
            0 <= i <= n,
            n == t@.len(),
            t@ == trim_view(text@),
            n > 0,
            t@[n - 1] == '>',
            !(n >= 2 && t@[n - 2] == '/'),
            !attr_value_gt(t@),
            full_tag_from(t@, 0) == full_tag_from(t@, i as int),
        decreases n - i,
    {
        if tag_match_at_check(t, i) {
            proof {
                assert(full_tag_from(t@, i as int) == Some(i as int));
                assert(spec_is_close_tag(text@));
            }
            return true;
        }
        i = i + 1;
    }
    false
}

/// The name of the last full tag under the leftmost, non-overlapping walk
/// of the line: each found tag is skipped past its closing `>` before the
/// search goes on.
pub open spec fn last_tag_name_from(t: Seq<char>, i: int) -> Option<Seq<char>>
    decreases t.len() - i,
{
    if i < 0 || i >= t.len() {
        None
    } else if tag_match_at(t, i) {
        let ne = crate::assist::tag_run_end(t, i + 1);
        let name = t.subrange(i + 1, ne);
        let rest = match attrs_end(t, ne) {
            Some(e) => if i < e <= t.len() {
                last_tag_name_from(t, e)
            } else {
                None
            },
            None => None,
        };
        match rest {
            Some(nm) => Some(nm),
            None => Some(name),
        }
    } else {
        last_tag_name_from(t, i + 1)
    }
}

/// The name to auto-close with: the name of the last full tag on the
/// line, or `div` when there is none or the name is a void tag.
pub open spec fn spec_close_tag_name(line: Seq<char>) -> Seq<char> {
    match last_tag_name_from(line, 0) {
        None => "div"@,
        Some(name) => if name == "br"@ || name == "img"@ {
            "div"@
        } else {
            name
        },
    }
}

/// The tag name for auto-closing.
pub fn get_close_tag(line_text: &str) -> (r: String)
    ensures
        r@ == spec_close_tag_name(line_text@),
{
    let n = line_text.unicode_len();
    let mut i: usize = 0;
    let mut last_name: Option<String> = None;
    while i < n
        invariant
            0 <= i <= n,
            n == line_text@.len(),
            match last_name {
                None => last_tag_name_from(line_text@, 0) == last_tag_name_from(
                    line_text@,
                    i as int,
                ),
                Some(nm) => last_tag_name_from(line_text@, 0) == (match last_tag_name_from(
                    line_text@,
                    i as int,
                ) {
                    Some(x) => Some(x),
                    None => Some(nm@),
                }),
            },
        decreases n - i,
    {
        match tag_end_here(line_text, i) {
            Some((ne, e)) => {
                proof {
                    assert(last_tag_name_from(line_text@, i as int) == (
                    match last_tag_name_from(line_text@, e as int) {
                        Some(x) => Some(x),
                        None => Some(line_text@.subrange(i + 1, ne as int)),
                    }));
                }
                let name = line_text.substring_char(i + 1, ne).to_owned();
                last_name = Some(name);
                i = e;
            },
            None => {
                i = i + 1;
            },
        }
    }
    match last_name {
        Some(nm) => {
            if str_eq(nm.as_str(), "br") || str_eq(nm.as_str(), "img") {
                return "div".to_owned();
            }
            nm
        },
        None => "div".to_owned(),
    }
}

/// End of the run of whitespace or identifier characters starting at `j`.
pub open spec fn sw_run_end(t: Seq<char>, j: int) -> int
    decreases t.len() - j,
{
    if 0 <= j < t.len() && (is_space(t[j]) || is_word(t[j])) {
        sw_run_end(t, j + 1)
    } else {
        j
    }
}

fn sw_run_end_idx(t: &str, from: usize) -> (r: usize)
    requires
        from <= t@.len(),
    ensures
        r == sw_run_end(t@, from as int),
        from <= r <= t@.len(),
{
    let n = t.unicode_len();
    let mut i: usize = from;
    while i < n && (crate::text::is_space_char(t.get_char(i)) || is_word_char(t.get_char(i)))
        invariant
            from <= i <= n,
            n == t@.len(),
            sw_run_end(t@, from as int) == sw_run_end(t@, i as int),
        decreases n - i,
    {
        i = i + 1;
    }
    i
}

/// A complete earlier tag closes the text: `<`, an optional `/`, a tag
/// name, any characters short of angle brackets, `>`, and then only
/// whitespace, identifier characters, at most one `<`, and a final
/// name-in-progress.
pub open spec fn break_at(t: Seq<char>, i: int) -> bool {
    &&& 0 <= i < t.len()
    &&& t[i] == '<'
    &&& {
        let j0 = if i + 1 < t.len() && t[i + 1] == '/' {
            i + 2
        } else {
            i + 1
        };
        let ne = crate::assist::tag_run_end(t, j0);
        &&& ne > j0
        &&& match first_angle(t, ne) {
            Some(g) => t[g] == '>' && tail_ok(t, g + 1),
            None => false,
        }
    }
}

/// First `<` or `>` at or after `i`.
pub open spec fn first_angle(t: Seq<char>, i: int) -> Option<int>
    decreases t.len() - i,
{
    if i < 0 || i >= t.len() {
        None
    } else if t[i] == '<' || t[i] == '>' {
        Some(i)
    } else {
        first_angle(t, i + 1)
    }
}

/// The suffix after a closed tag: whitespace and identifier characters,
/// then optionally `<`, whitespace, and a name-in-progress to the end.
pub open spec fn tail_ok(t: Seq<char>, u: int) -> bool {
    let v = sw_run_end(t, u);
    if v >= t.len() {
        true
    } else if t[v] == '<' {
        let x = ws_run_end(t, v + 1);
        crate::assist::tag_run_end(t, x) == t.len()
    } else {
        crate::assist::tag_run_end(t, v) == t.len()
    }
}

/// Some position closes the text with a complete earlier tag.
pub open spec fn pre_tag_break(t: Seq<char>) -> bool {
    exists|i: int| break_at(t, i)
}

fn break_at_check(t: &str, i: usize) -> (r: bool)
    requires
        i < t@.len(),
    ensures
        r == break_at(t@, i as int),
{
    let n = t.unicode_len();
    if t.get_char(i) != '<' {
        return false;
    }
    let j0 = if i + 1 < n && t.get_char(i + 1) == '/' {
        i + 2
    } else {
        i + 1
    };
    if j0 > n {
        proof {
            assert(false);
        }
        return false;
    }
    let ne = tag_name_end(t, j0);
    if ne <= j0 {
        return false;
    }
    // first angle bracket after the name
    let mut g: usize = ne;
    loop
        invariant_except_break
            first_angle(t@, ne as int) == first_angle(t@, g as int),
        invariant
            ne <= g <= n,
            n == t@.len(),
            i < n,
            t@[i as int] == '<',
            j0 == (if i + 1 < t@.len() && t@[i + 1] == '/' {
                i + 2
            } else {
                i + 1
            }),
            ne == crate::assist::tag_run_end(t@, j0 as int),
            ne > j0,
        ensures
            g < n,
            t@[g as int] == '<' || t@[g as int] == '>',
            first_angle(t@, ne as int) == Some(g as int),
        decreases n - g,
    {
        if g >= n {
            proof {
                assert(first_angle(t@, g as int) is None);
            }
            return false;
        }
        let c = t.get_char(g);
        if c == '<' || c == '>' {
            break;
        }
        g = g + 1;
    }
    if t.get_char(g) != '>' {
        return false;
    }
    // the tail after the closed tag
    let v = sw_run_end_idx(t, g + 1);
    if v >= n {
        return true;
    }
    if t.get_char(v) == '<' {
        let x = skip_ws_idx(t, v + 1);
        return tag_name_end(t, x) == n;
    }
    tag_name_end(t, v) == n
}

/// A `<name ` occurrence: the candidate containing tag before the cursor.
pub open spec fn pre_tag_at(t: Seq<char>, i: int) -> bool {
    &&& 0 <= i
    &&& i + 1 < t.len()
    &&& t[i] == '<'
    &&& is_tag_char(t[i + 1])
    &&& {
        let ne = crate::assist::tag_run_end(t, i + 1);
        ne < t.len() && is_space(t[ne])
    }
}

/// Last `<name ` occurrence scanning down from `i`.
pub open spec fn last_pre_tag(t: Seq<char>, i: int) -> Option<int>
    decreases i + 1,
{
    if i < 0 || i >= t.len() {
        None
    } else if pre_tag_at(t, i) {
        Some(i)
    } else {
        last_pre_tag(t, i - 1)
    }
}

/// The containing tag before the cursor: the name and offset of the last
/// `<name ` occurrence, or nothing when a complete earlier tag already
/// closed or no candidate exists.
pub fn match_pre_tag_from_text(text: &str) -> (r: Option<TagMatch>)
    requires
        text@.len() <= 0x7FFF_FFFE,
    ensures
        match r {
            Some(m) => !pre_tag_break(text@) && (last_pre_tag(text@, text@.len() - 1) matches Some(
                i,
            ) && m.text@ == text@.subrange(i + 1, crate::assist::tag_run_end(text@, i + 1))
                && m.offset == i + 1),
            None => pre_tag_break(text@) || last_pre_tag(text@, text@.len() - 1) is None,
        },
{
    let n = text.unicode_len();
    // a complete earlier tag ends the search
    let mut b: usize = 0;
    while b < n
        invariant
            0 <= b <= n,
            n == text@.len(),
            forall|j: int| 0 <= j < b ==> !break_at(text@, j),
        decreases n - b,
    {
        if break_at_check(text, b) {
            proof {
                assert(pre_tag_break(text@));
            }
            return None;
        }
        b = b + 1;
    }
    proof {
        assert forall|j: int| !break_at(text@, j) by {
            if 0 <= j < n {
                assert(!break_at(text@, j));
            }
        }
    }
    let mut i: usize = n;
    while i > 0
        invariant
            0 <= i <= n,
            n == text@.len(),
            n <= 0x7FFF_FFFE,
            !pre_tag_break(text@),
            last_pre_tag(text@, n - 1) == last_pre_tag(text@, i - 1),
        decreases i,
    {
        i = i - 1;
        if i + 1 < n && text.get_char(i) == '<' && is_tag_name_char(text.get_char(i + 1)) {
            let ne = tag_name_end(text, i + 1);
            if ne < n && crate::text::is_space_char(text.get_char(ne)) {
                proof {
                    assert(pre_tag_at(text@, i as int));
                    assert(last_pre_tag(text@, i as int) == Some(i as int));
                    assert(i + 1 <= 0x7FFF_FFFF);
                }
                let name = text.substring_char(i + 1, ne).to_owned();
                return Some(TagMatch { text: name, offset: (i + 1) as i32 });
            }
        }
    }
    None
}

/// The attribute name under edit: the text is cut at the last unclosed
/// double quote, and the attribute-name run before the first `=` that a
/// quote follows is the name; nothing when the run is empty or the cut
/// text still holds a complete double-quoted value.
pub open spec fn spec_pre_attr(text: Seq<char>) -> Option<Seq<char>> {
    let cleaned = clean_attr_text(text);
    match eq_quote_pos(cleaned, 0) {
        None => None,
        Some(e) => {
            let run = cleaned.subrange(attr_name_back(cleaned, e - 1) + 1, e);
            if run.len() > 0 && crate::definition::count_char_from(cleaned, '"', 0) < 2 {
                Some(run)
            } else {
                None
            }
        },
    }
}

/// The text with its tail removed from the last quote on, when that quote
/// is a double quote with no quote after it.
pub open spec fn clean_attr_text(text: Seq<char>) -> Seq<char> {
    match crate::definition::rlast_quote(text, text.len() - 1) {
        Some(q) => if text[q] == '"' {
            text.subrange(0, q)
        } else {
            text
        },
        None => text,
    }
}

/// First `=` that a quote follows.
pub open spec fn eq_quote_pos(t: Seq<char>, i: int) -> Option<int>
    decreases t.len() - i,
{
    if i < 0 || i >= t.len() {
        None
    } else if t[i] == '=' && i + 1 < t.len() && crate::definition::quoteish(t[i + 1]) {
        Some(i)
    } else {
        eq_quote_pos(t, i + 1)
    }
}

/// Index below the longest attribute-name run ending at `j`: identifier
/// characters, with a dash admitted only right after an identifier
/// character (so the run never starts with a dash and never holds two
/// dashes in a row).
pub open spec fn attr_name_back(t: Seq<char>, j: int) -> int
    decreases j + 1,
{
    if j < 0 || j >= t.len() {
        j
    } else if is_word(t[j]) {
        attr_name_back(t, j - 1)
    } else if t[j] == '-' && j >= 1 && is_word(t[j - 1]) {
        attr_name_back(t, j - 1)
    } else {
        j
    }
}

/// The attribute name under edit before the cursor.
pub fn match_pre_attr_from_text(text: &str) -> (r: Option<String>)
    ensures
        match r {
            Some(a) => spec_pre_attr(text@) == Some(a@),
            None => spec_pre_attr(text@) is None,
        },
{
    let n = text.unicode_len();
    let cleaned: &str = match last_quote_pos(text) {
        Some(q) => {
            if text.get_char(q) == '"' {
                text.substring_char(0, q)
            } else {
                proof {
                    assert(text@.subrange(0, n as int) =~= text@);
                }
                text.substring_char(0, n)
            }
        },
        None => {
            proof {
                assert(text@.subrange(0, n as int) =~= text@);
            }
            text.substring_char(0, n)
        },
    };
    let cn = cleaned.unicode_len();
    let mut e: usize = 0;
    while e < cn
        invariant
            0 <= e <= cn,
            cn == cleaned@.len(),
            cleaned@ == clean_attr_text(text@),
            eq_quote_pos(cleaned@, 0) == eq_quote_pos(cleaned@, e as int),
        decreases cn - e,
    {
        if cleaned.get_char(e) == '=' && e + 1 < cn {
            let q = cleaned.get_char(e + 1);
            if q == '"' || q == '\'' {
                // the attribute-name run before the equals sign
                let mut w: usize = e;
                while w > 0 && (is_word_char(cleaned.get_char(w - 1)) || (cleaned.get_char(w - 1)
                    == '-' && w >= 2 && is_word_char(cleaned.get_char(w - 2))))
                    invariant
                        0 <= w <= e < cleaned@.len(),
                        attr_name_back(cleaned@, e - 1) == attr_name_back(cleaned@, w - 1),
                    decreases w,
                {
                    w = w - 1;
                }
                let run = cleaned.substring_char(w, e);
                if run.unicode_len() > 0 && count_dquotes(cleaned) < 2 {
                    return Some(run.to_owned());
                }
                return None;
            }
        }
        e = e + 1;
    }
    None
}

fn last_quote_pos(text: &str) -> (r: Option<usize>)
    ensures
        match r {
            Some(q) => crate::definition::rlast_quote(text@, text@.len() - 1) == Some(q as int)
                && q < text@.len(),
            None => crate::definition::rlast_quote(text@, text@.len() - 1) is None,
        },
{
    let n = text.unicode_len();
    let mut i: usize = n;
    while i > 0
        invariant
            0 <= i <= n,
            n == text@.len(),
            crate::definition::rlast_quote(text@, n - 1) == crate::definition::rlast_quote(
                text@,
                i - 1,
            ),
        decreases i,
    {
        i = i - 1;
        let c = text.get_char(i);
        if c == '"' || c == '\'' {
            return Some(i);
        }
    }
    None
}

fn count_dquotes(t: &str) -> (r: usize)
    ensures
        r == crate::definition::count_char_from(t@, '"', 0),
        r <= t@.len(),
{
    let n = t.unicode_len();
    let mut count: usize = 0;
    let mut i: usize = 0;
    while i < n
        invariant
            0 <= i <= n,
            n == t@.len(),
            count <= i,
            count + crate::definition::count_char_from(t@, '"', i as int)
                == crate::definition::count_char_from(t@, '"', 0),
        decreases n - i,
    {
        if t.get_char(i) == '"' {
            count = count + 1;
        }
        i = i + 1;
    }
    count
}

/// The characters at brace depth exactly one of a props block, stopping
/// at the matching close brace.
pub open spec fn props_text(s: Seq<char>, i: int, depth: int) -> Seq<char>
    decreases s.len() - i,
{
    if i < 0 || i >= s.len() {
        Seq::<char>::empty()
    } else if s[i] == '{' {
        props_text(s, i + 1, depth + 1)
    } else if s[i] == '}' {
        if depth - 1 == 0 {
            Seq::<char>::empty()
        } else {
            props_text(s, i + 1, depth - 1)
        }
    } else {
        (if depth == 1 {
            seq![s[i]]
        } else {
            Seq::<char>::empty()
        }) + props_text(s, i + 1, depth)
    }
}

/// The property names of a props block text: each identifier-or-dash run
/// that whitespace precedes and a colon follows.
pub open spec fn prop_caps(t: Seq<char>, i: int) -> Seq<Seq<char>>
    decreases t.len() - i,
{
    if i < 0 || i >= t.len() {
        Seq::<Seq<char>>::empty()
    } else if is_space(t[i]) && ({
        let e = crate::assist::tag_run_end(t, i + 1);
        e < t.len() && t[e] == ':'
    }) {
        let e = crate::assist::tag_run_end(t, i + 1);
        seq![t.subrange(i + 1, e)] + (if e + 1 > i {
            prop_caps(t, e + 1)
        } else {
            Seq::<Seq<char>>::empty()
        })
    } else {
        prop_caps(t, i + 1)
    }
}

/// An `$emit(` call with its event name starting at `i`.
pub open spec fn emit_at(s: Seq<char>, i: int) -> bool {
    occurs_at(s, "$emit("@, i) && ({
        let j = i + 6 + (if i + 6 < s.len() && is_space(s[i + 6]) {
            1int
        } else {
            0int
        });
        j < s.len() && crate::definition::quoteish(s[j])
    })
}

/// The event name of an `$emit(` call at `i`.
pub open spec fn emit_name(s: Seq<char>, i: int) -> Seq<char> {
    let j = i + 6 + (if i + 6 < s.len() && is_space(s[i + 6]) {
        1int
    } else {
        0int
    });
    s.subrange(j + 1, crate::definition::word_run_end(s, j + 1))
}

/// The event names of all `$emit(` calls from `i` on.
pub open spec fn emit_caps(s: Seq<char>, i: int) -> Seq<Seq<char>>
    decreases s.len() - i,
{
    if i < 0 || i >= s.len() {
        Seq::<Seq<char>>::empty()
    } else if emit_at(s, i) {
        seq![emit_name(s, i)] + emit_caps(s, i + 7)
    } else {
        emit_caps(s, i + 1)
    }
}

/// The attribute suggestions the prop captures yield, kebab-cased.
pub open spec fn prop_entries(caps: Seq<Seq<char>>, from: int) -> Seq<
    (Seq<char>, Seq<char>, Seq<char>, Seq<char>, Seq<char>, Seq<char>),
>
    decreases caps.len() - from,
{
    if from < 0 || from >= caps.len() {
        Seq::empty()
    } else {
        let kb = kebab_of(caps[from]);
        seq![
            (
                kb,
                "0"@ + dec_str(from),
                ":"@ + kb + "=\"$0\""@,
                "property"@,
                Seq::<char>::empty(),
                Seq::<char>::empty(),
            ),
        ] + prop_entries(caps, from + 1)
    }
}

/// The event suggestions the emit captures yield.
pub open spec fn emit_entries(caps: Seq<Seq<char>>, from: int, base: int) -> Seq<
    (Seq<char>, Seq<char>, Seq<char>, Seq<char>, Seq<char>, Seq<char>),
>
    decreases caps.len() - from,
{
    if from < 0 || from >= caps.len() {
        Seq::empty()
    } else {
        seq![
            (
                caps[from],
                "0"@ + dec_str(base + from + 1),
                "@"@ + caps[from] + "=\"$0\""@,
                "method"@,
                Seq::<char>::empty(),
                Seq::<char>::empty(),
            ),
        ] + emit_entries(caps, from + 1, base)
    }
}

/// The prop captures of a component source: inside the script section,
/// after the `props` word, the depth-one names of the following brace
/// block.
pub open spec fn spec_prop_caps(content: Seq<char>) -> Seq<Seq<char>> {
    match find_from(content, "<script"@, 0) {
        None => Seq::<Seq<char>>::empty(),
        Some(si) => {
            let dt = content.subrange(si, content.len() as int);
            match find_from(dt, "props"@, 0) {
                None => Seq::<Seq<char>>::empty(),
                Some(pi) => {
                    let ap = dt.subrange(pi, dt.len() as int);
                    match char_from(ap, '{', 0) {
                        None => Seq::<Seq<char>>::empty(),
                        Some(bi) => prop_caps(
                            props_text(ap.subrange(bi, ap.len() as int), 0, 0),
                            0,
                        ),
                    }
                },
            }
        },
    }
}

/// The suggestions a component source yields: its kebab-cased props, then
/// its emitted events.
pub open spec fn spec_extract_props(content: Seq<char>) -> Seq<
    (Seq<char>, Seq<char>, Seq<char>, Seq<char>, Seq<char>, Seq<char>),
> {
    let pc = spec_prop_caps(content);
    prop_entries(pc, 0) + emit_entries(emit_caps(content, 0), 0, pc.len() as int)
}

proof fn lemma_props_text_le(s: Seq<char>, i: int, d: int)
    requires
        0 <= i,
    ensures
        props_text(s, i, d).len() <= s.len() - i || props_text(s, i, d).len() == 0,
    decreases s.len() - i,
{
    if 0 <= i < s.len() {
        if s[i] == '{' {
            lemma_props_text_le(s, i + 1, d + 1);
        } else if s[i] == '}' {
            if d - 1 != 0 {
                lemma_props_text_le(s, i + 1, d - 1);
            }
        } else {
            lemma_props_text_le(s, i + 1, d);
        }
    }
}

proof fn lemma_prop_caps_le(t: Seq<char>, i: int)
    requires
        0 <= i,
    ensures
        prop_caps(t, i).len() <= t.len() - i || prop_caps(t, i).len() == 0,
    decreases t.len() - i,
{
    if 0 <= i < t.len() {
        if is_space(t[i]) && ({
            let e = crate::assist::tag_run_end(t, i + 1);
            e < t.len() && t[e] == ':'
        }) {
            let e = crate::assist::tag_run_end(t, i + 1);
            if e + 1 > i {
                lemma_prop_caps_le(t, e + 1);
            }
        } else {
            lemma_prop_caps_le(t, i + 1);
        }
    }
}

proof fn lemma_emit_caps_le(s: Seq<char>, i: int)
    requires
        0 <= i,
    ensures
        emit_caps(s, i).len() <= s.len() - i || emit_caps(s, i).len() == 0,
    decreases s.len() - i,
{
    if 0 <= i < s.len() {
        if emit_at(s, i) {
            lemma_emit_caps_le(s, i + 7);
        } else {
            lemma_emit_caps_le(s, i + 1);
        }
    }
}

/// Extract the props and emitted events a component source offers for
/// completion on its usage site.
pub fn extract_props_from_vue(content: &str) -> (r: Vec<CompletionSuggestion>)
    requires
        content@.len() <= 0xFFFF_FFFF,
    ensures
        suggs_view(r@) == spec_extract_props(content@),
{
    proof {
        reveal_strlit("<script");
        reveal_strlit("props");
        reveal_strlit("$emit(");
    }
    let n = content.unicode_len();

    // the prop captures
    let mut caps: Vec<String> = Vec::new();
    match find_sub_from(content, "<script", 0) {
        None => {},
        Some(si) => {
            let dt: &str = content.substring_char(si, n);
            let dtn = dt.unicode_len();
            match find_sub_from(dt, "props", 0) {
                None => {},
                Some(pi) => {
                    let ap: &str = dt.substring_char(pi, dtn);
                    let apn = ap.unicode_len();
                    match char_from_idx(ap, '{', 0) {
                        None => {},
                        Some(bi) => {
                            let block: &str = ap.substring_char(bi, apn);
                            let pt = collect_props_text(block);
                            caps = collect_prop_caps(pt.as_str());
                            proof {
                                lemma_prop_caps_le(pt@, 0);
                                lemma_props_text_le(block@, 0, 0);
                                assert(caps@.len() <= 0xFFFF_FFFF);
                            }
                        },
                    }
                },
            }
        },
    }
    proof {
        assert(caps@.map_values(|s: String| s@) =~~= spec_prop_caps(content@));
    }
    let ghost pc = spec_prop_caps(content@);

    // the prop entries
    let mut out: Vec<CompletionSuggestion> = Vec::new();
    let pn = caps.len();
    let mut k: usize = 0;
    proof {
        assert(pc.len() <= 0xFFFF_FFFF);
        assert(suggs_view(out@) + prop_entries(pc, 0) =~~= prop_entries(pc, 0));
    }
    while k < pn
        invariant
            0 <= k <= pn,
            pn == pc.len(),
            pc == caps@.map_values(|s: String| s@),
            pn <= 0xFFFF_FFFF,
            suggs_view(out@) + prop_entries(pc, k as int) == prop_entries(pc, 0),
        decreases pn - k,
    {
        let ghost mid = suggs_view(out@);
        let kb = to_kebab_case(caps[k].as_str());
        let mut sort = "0".to_owned();
        sort.append(dec_of(k as u64).as_str());
        let mut insert = ":".to_owned();
        insert.append(kb.as_str());
        insert.append("=\"$0\"");
        out.push(
            CompletionSuggestion {
                label: kb,
                sort_text: sort,
                insert_text: insert,
                kind: "property".to_owned(),
                detail: String::new(),
                documentation: String::new(),
            },
        );
        proof {
            assert(pc[k as int] == caps@[k as int]@);
            let entry = (
                kebab_of(pc[k as int]),
                "0"@ + dec_str(k as int),
                ":"@ + kebab_of(pc[k as int]) + "=\"$0\""@,
                "property"@,
                Seq::<char>::empty(),
                Seq::<char>::empty(),
            );
            assert(suggs_view(out@) =~~= mid + seq![entry]);
            assert(suggs_view(out@) + prop_entries(pc, k + 1) =~~= mid + prop_entries(
                pc,
                k as int,
            ));
        }
        k = k + 1;
    }

    // the emit captures and entries
    let emits = collect_emit_caps(content);
    let ghost ec = emit_caps(content@, 0);
    let en = emits.len();
    let mut m: usize = 0;
    proof {
        lemma_emit_caps_le(content@, 0);
        assert(suggs_view(out@) + prop_entries(pc, pn as int) + emit_entries(ec, 0, pc.len() as int)
            =~~= prop_entries(pc, 0) + emit_entries(ec, 0, pc.len() as int));
        assert(suggs_view(out@) + emit_entries(ec, 0, pc.len() as int) =~~= prop_entries(pc, 0)
            + emit_entries(ec, 0, pc.len() as int));
    }
    while m < en
        invariant
            0 <= m <= en,
            en == ec.len(),
            ec == emits@.map_values(|s: String| s@),
            en <= 0xFFFF_FFFF,
            pn == pc.len(),
            pn <= 0xFFFF_FFFF,
            suggs_view(out@) + emit_entries(ec, m as int, pc.len() as int) == prop_entries(pc, 0)
                + emit_entries(ec, 0, pc.len() as int),
        decreases en - m,
    {
        let ghost mid = suggs_view(out@);
        let name: &str = emits[m].as_str();
        let mut sort = "0".to_owned();
        sort.append(dec_of(pn as u64 + m as u64 + 1).as_str());
        let mut insert = "@".to_owned();
        insert.append(name);
        insert.append("=\"$0\"");
        out.push(
            CompletionSuggestion {
                label: name.to_owned(),
                sort_text: sort,
                insert_text: insert,
                kind: "method".to_owned(),
                detail: String::new(),
                documentation: String::new(),
            },
        );
        proof {
            assert(ec[m as int] == emits@[m as int]@);
            let entry = (
                ec[m as int],
                "0"@ + dec_str(pc.len() + m + 1),
                "@"@ + ec[m as int] + "=\"$0\""@,
                "method"@,
                Seq::<char>::empty(),
                Seq::<char>::empty(),
            );
            assert(suggs_view(out@) =~~= mid + seq![entry]);
            assert(suggs_view(out@) + emit_entries(ec, m + 1, pc.len() as int) =~~= mid
                + emit_entries(ec, m as int, pc.len() as int));
        }
        m = m + 1;
    }
    proof {
        assert(suggs_view(out@) =~~= suggs_view(out@) + emit_entries(
            ec,
            en as int,
            pc.len() as int,
        ));
        assert(suggs_view(out@) =~~= spec_extract_props(content@));
    }
    out
}

/// The characters at brace depth one of a block text.
fn collect_props_text(block: &str) -> (r: String)
    ensures
        r@ == props_text(block@, 0, 0),
{
    let n = block.unicode_len();
    let mut out = String::new();
    let mut depth: i128 = 0;
    let mut i: usize = 0;
    proof {
        assert(out@ + props_text(block@, 0, 0) =~= props_text(block@, 0, 0));
    }
    while i < n
        invariant
            0 <= i <= n,
            n == block@.len(),
            -(i as int) <= depth as int <= i as int,
            out@ + props_text(block@, i as int, depth as int) == props_text(block@, 0, 0),
        decreases n - i,
    {
        let ghost before = out@;
        let c = block.get_char(i);
        if c == '{' {
            depth = depth + 1;
        } else if c == '}' {
            depth = depth - 1;
            if depth == 0 {
                proof {
                    assert(out@ =~= out@ + props_text(block@, i + 1, 0).take(0));
                    assert(props_text(block@, i as int, 1) =~= Seq::<char>::empty());
                }
                return out;
            }
        } else {
            if depth == 1 {
                push_char(&mut out, c);
                proof {
                    assert(out@ =~= before + seq![block@[i as int]]);
                }
            }
        }
        i = i + 1;
    }
    proof {
        assert(out@ =~= out@ + props_text(block@, n as int, depth as int));
    }
    out
}

/// The property names of a props block text.
fn collect_prop_caps(t: &str) -> (r: Vec<String>)
    ensures
        r@.map_values(|s: String| s@) == prop_caps(t@, 0),
{
    let n = t.unicode_len();
    let mut out: Vec<String> = Vec::new();
    let mut i: usize = 0;
    proof {
        assert(out@.map_values(|s: String| s@) + prop_caps(t@, 0) =~~= prop_caps(t@, 0));
    }
    while i < n
        invariant
            0 <= i <= n,
            n == t@.len(),
            out@.map_values(|s: String| s@) + prop_caps(t@, i as int) == prop_caps(t@, 0),
        decreases n - i,
    {
        let ghost before = out@.map_values(|s: String| s@);
        let mut advanced = false;
        if crate::text::is_space_char(t.get_char(i)) {
            let e = tag_name_end(t, i + 1);
            if e < n && t.get_char(e) == ':' {
                out.push(t.substring_char(i + 1, e).to_owned());
                proof {
                    assert(out@.map_values(|s: String| s@) =~~= before + seq![
                        t@.subrange(i + 1, e as int),
                    ]);
                    assert(out@.map_values(|s: String| s@) + prop_caps(t@, e + 1) =~~= before
                        + prop_caps(t@, i as int));
                }
                i = e + 1;
                advanced = true;
            }
        }
        if !advanced {
            proof {
                assert(out@.map_values(|s: String| s@) + prop_caps(t@, i + 1) =~~= before
                    + prop_caps(t@, i as int));
            }
            i = i + 1;
        }
    }
    proof {
        assert(out@.map_values(|s: String| s@) =~~= out@.map_values(|s: String| s@) + prop_caps(
            t@,
            n as int,
        ));
    }
    out
}

/// The event names of all `$emit(` calls of the source.
fn collect_emit_caps(s: &str) -> (r: Vec<String>)
    ensures
        r@.map_values(|x: String| x@) == emit_caps(s@, 0),
{
    proof {
        reveal_strlit("$emit(");
    }
    let n = s.unicode_len();
    let mut out: Vec<String> = Vec::new();
    let mut i: usize = 0;
    proof {
        assert(out@.map_values(|x: String| x@) + emit_caps(s@, 0) =~~= emit_caps(s@, 0));
    }
    while i < n
        invariant
            0 <= i <= n,
            n == s@.len(),
            out@.map_values(|x: String| x@) + emit_caps(s@, i as int) == emit_caps(s@, 0),
        decreases n - i,
    {
        proof {
            reveal_strlit("$emit(");
        }
        let ghost before = out@.map_values(|x: String| x@);
        let mut matched = false;
        if crate::text::occurs_at_check(s, "$emit(", i) {
            let j = if i + 6 < n && crate::text::is_space_char(s.get_char(i + 6)) {
                i + 7
            } else {
                i + 6
            };
            if j < n {
                let q = s.get_char(j);
                if q == '"' || q == '\'' {
                    let we = crate::definition::word_run_end_idx(s, j + 1);
                    out.push(s.substring_char(j + 1, we).to_owned());
                    proof {
                        assert(emit_at(s@, i as int));
                        assert(out@.map_values(|x: String| x@) =~~= before + seq![
                            emit_name(s@, i as int),
                        ]);
                        assert(out@.map_values(|x: String| x@) + emit_caps(s@, i + 7) =~~= before
                            + emit_caps(s@, i as int));
                    }
                    i = i + 7;
                    matched = true;
                }
            }
        }
        if !matched {
            proof {
                assert(!emit_at(s@, i as int));
                assert(out@.map_values(|x: String| x@) + emit_caps(s@, i + 1) =~~= before
                    + emit_caps(s@, i as int));
            }
            i = i + 1;
        }
    }
    proof {
        assert(out@.map_values(|x: String| x@) =~~= out@.map_values(|x: String| x@) + emit_caps(
            s@,
            n as int,
        ));
    }
    out
}

} // verus!
