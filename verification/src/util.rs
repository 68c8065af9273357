//! Word extraction under a cursor and relative-path computation between
//! document paths.

use vstd::prelude::*;

use crate::text::{
    fold_code, push_char, chars_eq_nocase,
};

verus! {

/// Result of a boundary-aware word extraction: the word itself and the
/// delimiter character found on its left (empty when the scan reached the
/// start of the text).
#[derive(Clone, Debug)]
pub struct WordResult {
    pub select_text: String,
    pub start_text: String,
}

/// The fixed stop set of the plain word extractor: whitespace, double
/// quote, colon, open brace, open bracket and comma.
pub open spec fn is_stop(c: char) -> bool {
    c == ' ' || c == '\t' || c == '\n' || c == '\r' || c == '\u{b}' || c == '"' || c == ':' || c
        == '{' || c == '[' || c == ','
}

fn is_stop_char(c: char) -> (r: bool)
    ensures
        r == is_stop(c),
{
    c == ' ' || c == '\t' || c == '\n' || c == '\r' || c == '\u{b}' || c == '"' || c == ':' || c
        == '{' || c == '[' || c == ','
}

/// Start of the word whose last character sits at index `i`: one past the
/// first stop character to the left, or 0.
pub open spec fn cur_word_start(text: Seq<char>, i: int) -> int
    decreases i,
{
    if is_stop(text[i]) {
        i + 1
    } else if i <= 0 {
        0
    } else {
        cur_word_start(text, i - 1)
    }
}

/// The word ending at the cursor: the characters from one past the nearest
/// stop character on the left (or from the start of the text) up to the
/// cursor.  Empty when the cursor is at position 0.
pub fn get_current_word(text: &str, character: usize) -> (r: String)
    requires
        character <= text@.len(),
    ensures
        character == 0 ==> r@ =~= Seq::<char>::empty(),
        character > 0 ==> r@ == text@.subrange(
            cur_word_start(text@, character - 1),
            character as int,
        ),
{
    if character == 0 {
        return String::new();
    }
    let mut i: usize = character - 1;
    loop
        invariant_except_break
            0 <= i <= character - 1 < text@.len(),
            cur_word_start(text@, character - 1) == cur_word_start(text@, i as int),
        invariant
            character <= text@.len(),
            character >= 1,
        ensures
            i == cur_word_start(text@, character - 1),
            0 <= i <= character,
        decreases i,
    {
        if is_stop_char(text.get_char(i)) {
            i = i + 1;
            break;
        }
        if i == 0 {
            break;
        }
        i = i - 1;
    }
    text.substring_char(i, character).to_owned()
}

/// Whether `c` is the first character of one of the delimiter strings.
pub open spec fn is_delim(delims: Seq<Seq<char>>, c: char) -> bool {
    exists|k: int| 0 <= k < delims.len() && delims[k].len() > 0 && delims[k][0] == c
}

/// The delimiter strings as a sequence of character sequences.
pub open spec fn delims_view(delimiters: &Vec<String>) -> Seq<Seq<char>> {
    delimiters@.map_values(|s: String| s@)
}

fn is_delim_char(delimiters: &Vec<String>, c: char) -> (r: bool)
    ensures
        r == is_delim(delims_view(delimiters), c),
{
    let ghost dv = delims_view(delimiters);
    let n = delimiters.len();
    let mut k: usize = 0;
    while k < n
        invariant
            0 <= k <= n,
            n == dv.len(),
            dv == delims_view(delimiters),
            forall|j: int| 0 <= j < k ==> !(dv[j].len() > 0 && dv[j][0] == c),
        decreases n - k,
    {
        let d: &str = delimiters[k].as_str();
        if d.unicode_len() > 0 && d.get_char(0) == c {
            proof {
                assert(dv[k as int].len() > 0 && dv[k as int][0] == c);
            }
            return true;
        }
        k = k + 1;
    }
    false
}

/// First index at or after `i` holding a delimiter character, or the length.
pub open spec fn fwd_delim_stop(text: Seq<char>, delims: Seq<Seq<char>>, i: int) -> int
    decreases text.len() - i,
{
    if i < 0 || i >= text.len() {
        text.len() as int
    } else if is_delim(delims, text[i]) {
        i
    } else {
        fwd_delim_stop(text, delims, i + 1)
    }
}

/// Largest index at or before `i` holding a delimiter character, if any.
pub open spec fn back_delim(text: Seq<char>, delims: Seq<Seq<char>>, i: int) -> Option<int>
    decreases i + 1,
{
    if i < 0 {
        None
    } else if is_delim(delims, text[i]) {
        Some(i)
    } else {
        back_delim(text, delims, i - 1)
    }
}

/// The word around the cursor under a caller-supplied delimiter set,
/// together with the delimiter met on the left as the boundary marker.
pub fn get_word(text: &str, character: usize, delimiters: &Vec<String>) -> (r: WordResult)
    requires
        character <= text@.len(),
    ensures
        ({
            let dv = delims_view(delimiters);
            let f = fwd_delim_stop(text@, dv, character as int);
            if character == 0 {
                r.select_text@ == text@.subrange(0, f) && r.start_text@ =~= Seq::<char>::empty()
            } else {
                match back_delim(text@, dv, character - 1) {
                    Some(b) => r.select_text@ == text@.subrange(b + 1, f) && r.start_text@ =~= Seq::<
                        char,
                    >::empty().push(text@[b]),
                    None => r.select_text@ == text@.subrange(0, f) && r.start_text@ =~= Seq::<
                        char,
                    >::empty(),
                }
            }
        }),
{
    let ghost dv = delims_view(delimiters);
    let n = text.unicode_len();

    // forward: first delimiter at or after the cursor
    let mut f: usize = character;
    while f < n && !is_delim_char(delimiters, text.get_char(f))
        invariant
            character <= f <= n,
            n == text@.len(),
            dv == delims_view(delimiters),
            fwd_delim_stop(text@, dv, character as int) == fwd_delim_stop(text@, dv, f as int),
        decreases n - f,
    {
        f = f + 1;
    }

    // backward: nearest delimiter strictly left of the cursor
    let mut start: usize = 0;
    let mut boundary: Option<char> = None;
    if character > 0 {
        let mut i: usize = character - 1;
        loop
            invariant_except_break
                0 <= i <= character - 1 < text@.len(),
                back_delim(text@, dv, character - 1) == back_delim(text@, dv, i as int),
                start == 0,
                boundary is None,
            invariant
                character >= 1,
                character <= text@.len(),
                dv == delims_view(delimiters),
            ensures
                match back_delim(text@, dv, character - 1) {
                    Some(b) => start == b + 1 && boundary == Some(text@[b]) && start <= character,
                    None => start == 0 && boundary is None,
                },
            decreases i,
        {
            let c = text.get_char(i);
            if is_delim_char(delimiters, c) {
                start = i + 1;
                boundary = Some(c);
                break;
            }
            if i == 0 {
                proof {
                    assert(back_delim(text@, dv, -1) is None);
                }
                break;
            }
            i = i - 1;
        }
    }

    let select_text = text.substring_char(start, f).to_owned();
    let start_text = match boundary {
        Some(c) => {
            let mut s = String::new();
            push_char(&mut s, c);
            s
        },
        None => String::new(),
    };
    WordResult { select_text, start_text }
}

/// `page_path` with a single leading slash or backslash removed on Windows
/// hosts; unchanged elsewhere; empty stays empty.
pub fn win_root_path_handle(page_path: &str, on_windows: bool) -> (r: String)
    ensures
        page_path@.len() == 0 ==> r@ =~= Seq::<char>::empty(),
        page_path@.len() > 0 && on_windows && (page_path@[0] == '\\' || page_path@[0] == '/')
            ==> r@ == page_path@.subrange(1, page_path@.len() as int),
        page_path@.len() > 0 && !(on_windows && (page_path@[0] == '\\' || page_path@[0] == '/'))
            ==> r@ == page_path@,
{
    let n = page_path.unicode_len();
    if n == 0 {
        return String::new();
    }
    let first = page_path.get_char(0);
    if on_windows && (first == '\\' || first == '/') {
        page_path.substring_char(1, n).to_owned()
    } else {
        proof {
            assert(page_path@.subrange(0, n as int) =~= page_path@);
        }
        page_path.substring_char(0, n).to_owned()
    }
}

/// `s` with every backslash turned into a forward slash.
pub open spec fn slashes(s: Seq<char>) -> Seq<char> {
    s.map_values(
        |c: char|
            if c == '\\' {
                '/'
            } else {
                c
            },
    )
}

fn slashes_str(s: &str) -> (r: String)
    ensures
        r@ == slashes(s@),
{
    let r = crate::text::replace_char(s, '\\', '/');
    proof {
        assert(r@ =~= slashes(s@));
    }
    r
}

/// The non-empty `/`-separated components of `s`, collected left to right
/// with `cur` as the component under construction.
pub open spec fn split_acc(s: Seq<char>, i: int, cur: Seq<char>) -> Seq<Seq<char>>
    decreases s.len() - i,
{
    if i < 0 || i >= s.len() {
        if cur.len() > 0 {
            seq![cur]
        } else {
            Seq::<Seq<char>>::empty()
        }
    } else if s[i] == '/' {
        (if cur.len() > 0 {
            seq![cur]
        } else {
            Seq::<Seq<char>>::empty()
        }) + split_acc(s, i + 1, Seq::<char>::empty())
    } else {
        split_acc(s, i + 1, cur.push(s[i]))
    }
}

/// The non-empty components of `s` split on `/`.
pub open spec fn path_parts(s: Seq<char>) -> Seq<Seq<char>> {
    split_acc(s, 0, Seq::<char>::empty())
}

/// The components of the parts vector.
pub open spec fn parts_view(parts: &Vec<String>) -> Seq<Seq<char>> {
    parts@.map_values(|p: String| p@)
}

fn split_path(s: &str) -> (r: Vec<String>)
    ensures
        parts_view(&r) == path_parts(s@),
{
    let n = s.unicode_len();
    let mut parts: Vec<String> = Vec::new();
    let mut cur = String::new();
    let mut i: usize = 0;
    proof {
        assert(parts_view(&parts) + split_acc(s@, 0, cur@) =~~= path_parts(s@));
    }
    while i < n
        invariant
            0 <= i <= n,
            n == s@.len(),
            parts_view(&parts) + split_acc(s@, i as int, cur@) == path_parts(s@),
        decreases n - i,
    {
        let ghost cur_entry = cur@;
        let ghost parts_entry = parts_view(&parts);
        let c = s.get_char(i);
        if c == '/' {
            proof {
                assert(split_acc(s@, i as int, cur_entry) == (if cur_entry.len() > 0 {
                    seq![cur_entry]
                } else {
                    Seq::<Seq<char>>::empty()
                }) + split_acc(s@, i + 1, Seq::<char>::empty()));
            }
            if cur.as_str().unicode_len() > 0 {
                parts.push(cur);
                cur = String::new();
                proof {
                    assert(cur@ =~= Seq::<char>::empty());
                    assert(parts_view(&parts) =~~= parts_entry + seq![cur_entry]);
                    assert((parts_entry + seq![cur_entry]) + split_acc(
                        s@,
                        i + 1,
                        Seq::<char>::empty(),
                    ) =~~= parts_entry + (seq![cur_entry] + split_acc(
                        s@,
                        i + 1,
                        Seq::<char>::empty(),
                    )));
                    assert(parts_view(&parts) + split_acc(s@, i + 1, cur@) =~~= parts_entry
                        + split_acc(s@, i as int, cur_entry));
                }
            } else {
                proof {
                    assert(cur_entry =~= Seq::<char>::empty());
                    assert(Seq::<Seq<char>>::empty() + split_acc(s@, i + 1, Seq::<char>::empty())
                        =~~= split_acc(s@, i + 1, Seq::<char>::empty()));
                    assert(parts_view(&parts) + split_acc(s@, i + 1, cur@) =~~= parts_entry
                        + split_acc(s@, i as int, cur_entry));
                }
            }
        } else {
            push_char(&mut cur, c);
            proof {
                assert(cur@ == cur_entry.push(s@[i as int]));
                assert(split_acc(s@, i as int, cur_entry) == split_acc(s@, i + 1, cur@));
            }
        }
        i = i + 1;
    }
    let ghost cur_entry = cur@;
    let ghost parts_entry = parts_view(&parts);
    proof {
        assert(split_acc(s@, n as int, cur_entry) == (if cur_entry.len() > 0 {
            seq![cur_entry]
        } else {
            Seq::<Seq<char>>::empty()
        }));
    }
    if cur.as_str().unicode_len() > 0 {
        parts.push(cur);
        proof {
            assert(parts_view(&parts) =~~= parts_entry + seq![cur_entry]);
        }
    } else {
        proof {
            assert(parts_view(&parts) =~~= parts_entry + split_acc(s@, n as int, cur_entry));
        }
    }
    parts
}

/// Case-insensitive (ASCII) equality of two path components.
pub open spec fn comp_eq_nocase(a: Seq<char>, b: Seq<char>) -> bool {
    a.len() == b.len() && forall|i: int| 0 <= i < a.len() ==> fold_code(#[trigger] a[i])
        == fold_code(b[i])
}

fn comp_eq_nocase_check(a: &str, b: &str) -> (r: bool)
    ensures
        r == comp_eq_nocase(a@, b@),
{
    let an = a.unicode_len();
    let bn = b.unicode_len();
    if an != bn {
        return false;
    }
    let mut i: usize = 0;
    while i < an
        invariant
            0 <= i <= an,
            an == a@.len(),
            an == b@.len(),
            forall|j: int| 0 <= j < i ==> fold_code(#[trigger] a@[j]) == fold_code(b@[j]),
        decreases an - i,
    {
        if !chars_eq_nocase(a.get_char(i), b.get_char(i)) {
            return false;
        }
        i = i + 1;
    }
    true
}

/// Length of the longest common case-insensitive prefix of the two
/// component sequences, starting the comparison at index `i`.
pub open spec fn common_prefix(tos: Seq<Seq<char>>, froms: Seq<Seq<char>>, i: int) -> int
    decreases tos.len() - i,
{
    if i < 0 || i >= tos.len() || i >= froms.len() || !comp_eq_nocase(tos[i], froms[i]) {
        i
    } else {
        common_prefix(tos, froms, i + 1)
    }
}

/// `"../"` repeated `k` times.
pub open spec fn dots(k: int) -> Seq<char>
    decreases k,
{
    if k <= 0 {
        Seq::<char>::empty()
    } else {
        dots(k - 1) + seq!['.', '.', '/']
    }
}

/// The components `parts[i0..]` joined with `/`.
pub open spec fn join_from(parts: Seq<Seq<char>>, i0: int, i: int) -> Seq<char>
    decreases parts.len() - i,
{
    if i < 0 || i >= parts.len() {
        Seq::<char>::empty()
    } else {
        (if i > i0 {
            seq!['/']
        } else {
            Seq::<char>::empty()
        }) + parts[i] + join_from(parts, i0, i + 1)
    }
}

/// The relative path from `from` to `to`: one `../` per component of `from`
/// past the common prefix, then the remaining components of `to`; `.` when
/// nothing remains.
pub open spec fn spec_pathdiff(to: Seq<char>, from: Seq<char>) -> Seq<char> {
    let tos = path_parts(slashes(to));
    let froms = path_parts(slashes(from));
    let c = common_prefix(tos, froms, 0);
    let r = dots(froms.len() - c) + join_from(tos, c, c);
    if r.len() == 0 {
        seq!['.']
    } else {
        r
    }
}

fn pathdiff_relative(to: &str, from: &str) -> (r: String)
    ensures
        r@ == spec_pathdiff(to@, from@),
{
    let to_slashed = slashes_str(to);
    let from_slashed = slashes_str(from);
    let to_parts = split_path(to_slashed.as_str());
    let from_parts = split_path(from_slashed.as_str());
    let ghost tos = parts_view(&to_parts);
    let ghost froms = parts_view(&from_parts);

    let tn = to_parts.len();
    let fn_ = from_parts.len();
    let m = if tn < fn_ {
        tn
    } else {
        fn_
    };
    let mut common: usize = 0;
    while common < m && comp_eq_nocase_check(
        to_parts[common].as_str(),
        from_parts[common].as_str(),
    )
        invariant
            0 <= common <= m,
            m == (if tos.len() < froms.len() {
                tos.len()
            } else {
                froms.len()
            }),
            tos == parts_view(&to_parts),
            froms == parts_view(&from_parts),
            tn == tos.len(),
            fn_ == froms.len(),
            common_prefix(tos, froms, 0) == common_prefix(tos, froms, common as int),
        decreases m - common,
    {
        common = common + 1;
    }
    proof {
        assert(common == common_prefix(tos, froms, 0));
    }

    let mut result = String::new();
    let mut k: usize = common;
    while k < fn_
        invariant
            common <= k <= fn_,
            fn_ == froms.len(),
            result@ =~= dots(k - common),
        decreases fn_ - k,
    {
        result.append("../");
        proof {
            assert(("../")@ =~= seq!['.', '.', '/']) by {
                reveal_strlit("../");
            }
        }
        k = k + 1;
    }

    let mut i: usize = common;
    while i < tn
        invariant
            common <= i <= tn,
            tn == tos.len(),
            tos == parts_view(&to_parts),
            result@ + join_from(tos, common as int, i as int) =~= dots(fn_ - common) + join_from(
                tos,
                common as int,
                common as int,
            ),
        decreases tn - i,
    {
        let ghost before = result@;
        if i > common {
            result.append("/");
            proof {
                assert(("/")@ =~= seq!['/']) by {
                    reveal_strlit("/");
                }
            }
        }
        result.append(to_parts[i].as_str());
        proof {
            let sep: Seq<char> = if i > common {
                seq!['/']
            } else {
                Seq::<char>::empty()
            };
            assert(result@ =~= before + sep + tos[i as int]);
            assert(result@ + join_from(tos, common as int, i + 1) =~= before + join_from(
                tos,
                common as int,
                i as int,
            ));
        }
        i = i + 1;
    }
    proof {
        assert(result@ =~= result@ + join_from(tos, common as int, tn as int));
    }

    if result.as_str().unicode_len() == 0 {
        let mut dot = String::new();
        push_char(&mut dot, '.');
        proof {
            assert(dot@ =~= seq!['.']);
        }
        return dot;
    }
    result
}

/// The relative path from document `src` to target `dist`: the root-slash
/// handling of `src`, the component-wise difference, and one leading dot
/// stripped from a `../` prefix.
pub open spec fn spec_relative_path(src: Seq<char>, dist: Seq<char>, on_windows: bool) -> Seq<
    char,
> {
    let src_h = if src.len() == 0 {
        Seq::<char>::empty()
    } else if on_windows && (src[0] == '\\' || src[0] == '/') {
        src.subrange(1, src.len() as int)
    } else {
        src
    };
    let rel = slashes(spec_pathdiff(dist, src_h));
    if rel.len() >= 3 && rel[0] == '.' && rel[1] == '.' && rel[2] == '/' {
        rel.subrange(1, rel.len() as int)
    } else {
        rel
    }
}

/// Relative path between two project paths, in forward-slash form.
pub fn get_relative_path(src: &str, dist: &str, on_windows: bool) -> (r: String)
    ensures
        r@ == spec_relative_path(src@, dist@, on_windows),
{
    let src_handled = win_root_path_handle(src, on_windows);
    let rel = pathdiff_relative(dist, src_handled.as_str());
    let rel2 = slashes_str(rel.as_str());
    let n = rel2.as_str().unicode_len();
    if n >= 3 && rel2.as_str().get_char(0) == '.' && rel2.as_str().get_char(1) == '.'
        && rel2.as_str().get_char(2) == '/' {
        rel2.as_str().substring_char(1, n).to_owned()
    } else {
        proof {
            assert(rel2@.subrange(0, n as int) =~= rel2@);
        }
        rel2.as_str().substring_char(0, n).to_owned()
    }
}

} // verus!
