//! Editor-assist operations on a document snapshot: block selection by
//! bracket depth, markup tag or continuation-line chain, smart backspace,
//! and body-template insertion after a function-like line.
//!
//! Each scan is specified by a recursive spec function mirrored exactly by
//! the executable loop, so the contracts pin the selected range down for
//! every document and cursor position.

use vstd::prelude::*;

use crate::text::{
    leading_ws, trim_view, trim_str, trim_start_index, to_u32, is_tag_char,
    is_tag_name_char, is_word, is_word_char, occurs_at, occurs_at_check, ws_run_end,
    skip_ws_idx,
};

verus! {

/// Selection produced by block selection: half-open on the character axis.
#[derive(Clone, Debug)]
pub struct SelectionRange {
    pub start_line: u32,
    pub start_char: u32,
    pub end_line: u32,
    pub end_char: u32,
}

/// A single text edit: the range is replaced by `text` (empty = deletion).
#[derive(Clone, Debug)]
pub struct EditOperation {
    pub start_line: u32,
    pub start_char: u32,
    pub end_line: u32,
    pub end_char: u32,
    pub text: String,
}

/// The document as a sequence of lines of characters.
pub open spec fn doc_view(lines: &Vec<String>) -> Seq<Seq<char>> {
    lines@.map_values(|s: String| s@)
}

/// Host-protocol limits: line and character indices must fit in 32 bits.
pub open spec fn doc_fits(doc: Seq<Seq<char>>) -> bool {
    doc.len() <= 0xFFFF_FFFF && forall|i: int| 0 <= i < doc.len() ==> #[trigger] doc[i].len()
        <= 0xFFFF_FFFF
}

/// Total number of characters on lines `a` (inclusive) to `b` (exclusive).
pub open spec fn chars_in(doc: Seq<Seq<char>>, a: int, b: int) -> nat
    decreases b - a,
{
    if a >= b {
        0
    } else {
        doc[a].len() + chars_in(doc, a + 1, b)
    }
}

pub proof fn lemma_chars_in_bound(doc: Seq<Seq<char>>, a: int, b: int)
    requires
        doc_fits(doc),
        0 <= a,
        b <= doc.len(),
    ensures
        chars_in(doc, a, b) <= (if a >= b {
            0int
        } else {
            (b - a) * 0x1_0000_0000
        }),
    decreases b - a,
{
    if a < b {
        lemma_chars_in_bound(doc, a + 1, b);
        assert((b - a) * 0x1_0000_0000 == (b - a - 1) * 0x1_0000_0000 + 0x1_0000_0000)
            by (nonlinear_arith);
    }
}

/// Backward scan of one line from index `p` down to 0: a close delimiter
/// deepens, an open delimiter at depth zero is the found start, any other
/// open lifts one level.  `Err` carries the depth after the whole prefix.
pub open spec fn scan_back_line(
    line: Seq<char>,
    p: int,
    depth: int,
    open: char,
    close: char,
) -> Result<int, int>
    decreases p + 1,
{
    if p < 0 {
        Err(depth)
    } else if line[p] == close {
        scan_back_line(line, p - 1, depth + 1, open, close)
    } else if line[p] == open {
        if depth == 0 {
            Ok(p)
        } else {
            scan_back_line(line, p - 1, depth - 1, open, close)
        }
    } else {
        scan_back_line(line, p - 1, depth, open, close)
    }
}

/// Backward scan over whole lines `li`, `li - 1`, ..., each scanned from its
/// last character, threading the depth through.
pub open spec fn scan_back_lines(
    doc: Seq<Seq<char>>,
    li: int,
    depth: int,
    open: char,
    close: char,
) -> Option<(int, int)>
    decreases li + 1,
{
    if li < 0 {
        None
    } else {
        match scan_back_line(doc[li], doc[li].len() - 1, depth, open, close) {
            Ok(p) => Some((li, p)),
            Err(d) => scan_back_lines(doc, li - 1, d, open, close),
        }
    }
}

/// Position of the unmatched open delimiter that encloses the cursor: first
/// the part of the cursor line strictly left of the cursor, then whole
/// previous lines.
pub open spec fn spec_find_open(
    doc: Seq<Seq<char>>,
    cl: int,
    cc: int,
    open: char,
    close: char,
) -> Option<(int, int)> {
    let start = if cc - 1 < doc[cl].len() {
        cc - 1
    } else {
        doc[cl].len() - 1
    };
    let first = if cc > 0 {
        scan_back_line(doc[cl], start, 0, open, close)
    } else {
        Err(0)
    };
    match first {
        Ok(p) => Some((cl, p)),
        Err(d) => scan_back_lines(doc, cl - 1, d, open, close),
    }
}

/// Forward scan of one line from index `p` to the end: an open delimiter
/// deepens, a close at depth zero is the found end.
pub open spec fn scan_fwd_line(
    line: Seq<char>,
    p: int,
    depth: int,
    open: char,
    close: char,
) -> Result<int, int>
    decreases line.len() - p,
{
    if p < 0 || p >= line.len() {
        Err(depth)
    } else if line[p] == open {
        scan_fwd_line(line, p + 1, depth + 1, open, close)
    } else if line[p] == close {
        if depth == 0 {
            Ok(p)
        } else {
            scan_fwd_line(line, p + 1, depth - 1, open, close)
        }
    } else {
        scan_fwd_line(line, p + 1, depth, open, close)
    }
}

/// Forward scan over whole lines `li`, `li + 1`, ...
pub open spec fn scan_fwd_lines(
    doc: Seq<Seq<char>>,
    li: int,
    depth: int,
    open: char,
    close: char,
) -> Option<(int, int)>
    decreases doc.len() - li,
{
    if li < 0 || li >= doc.len() {
        None
    } else {
        match scan_fwd_line(doc[li], 0, depth, open, close) {
            Ok(p) => Some((li, p)),
            Err(d) => scan_fwd_lines(doc, li + 1, d, open, close),
        }
    }
}

/// Position of the close delimiter matching the open found at `(sl, sc)`:
/// the rest of that line first, then the following lines.
pub open spec fn spec_find_close(
    doc: Seq<Seq<char>>,
    sl: int,
    sc: int,
    open: char,
    close: char,
) -> Option<(int, int)> {
    match scan_fwd_line(doc[sl], sc + 1, 0, open, close) {
        Ok(p) => Some((sl, p)),
        Err(d) => scan_fwd_lines(doc, sl + 1, d, open, close),
    }
}

/// The range a bracket-pair block selection yields: the interior on a single
/// line, or the full lines strictly between the delimiter lines.
pub open spec fn spec_js_block(
    doc: Seq<Seq<char>>,
    cl: int,
    cc: int,
    open: char,
    close: char,
) -> Option<(int, int, int, int)> {
    match spec_find_open(doc, cl, cc, open, close) {
        None => None,
        Some((sl, sc)) => match spec_find_close(doc, sl, sc, open, close) {
            None => None,
            Some((el, ec)) => if sl == el {
                Some((sl, sc + 1, el, ec))
            } else {
                Some((sl + 1, 0, el, 0))
            },
        },
    }
}

/// Backward scan of one line of `line` from `from` (inclusive) down to 0.
fn back_scan_line(line: &str, from: usize, depth0: u128, open: char, close: char) -> (r: Result<
    usize,
    u128,
>)
    requires
        from < line@.len(),
        line@.len() <= 0xFFFF_FFFF,
        depth0 <= 0x1_0000_0000_0000_0000,
    ensures
        match r {
            Ok(p) => scan_back_line(line@, from as int, depth0 as int, open, close)
                == Ok::<int, int>(p as int) && p < line@.len(),
            Err(d) => scan_back_line(line@, from as int, depth0 as int, open, close)
                == Err::<int, int>(d as int) && d <= depth0 + from + 1,
        },
{
    let mut p: usize = from;
    let mut depth: u128 = depth0;
    loop
        invariant
            0 <= p <= from < line@.len(),
            line@.len() <= 0xFFFF_FFFF,
            depth0 <= 0x1_0000_0000_0000_0000,
            depth <= depth0 + (from - p),
            scan_back_line(line@, from as int, depth0 as int, open, close) == scan_back_line(
                line@,
                p as int,
                depth as int,
                open,
                close,
            ),
        decreases p,
    {
        let ghost p0 = p as int;
        let ghost d0 = depth as int;
        let ch = line.get_char(p);
        if ch == close {
            depth = depth + 1;
        } else if ch == open {
            if depth == 0 {
                return Ok(p);
            }
            depth = depth - 1;
        }
        proof {
            assert(scan_back_line(line@, p0, d0, open, close) == scan_back_line(
                line@,
                p0 - 1,
                depth as int,
                open,
                close,
            ));
        }
        if p == 0 {
            proof {
                assert(scan_back_line(line@, -1, depth as int, open, close) == Err::<int, int>(
                    depth as int,
                ));
            }
            return Err(depth);
        }
        p = p - 1;
    }
}

/// Forward scan of one line of `line` from `from` (inclusive) to the end.
fn fwd_scan_line(line: &str, from: usize, depth0: u128, open: char, close: char) -> (r: Result<
    usize,
    u128,
>)
    requires
        from <= line@.len(),
        line@.len() <= 0xFFFF_FFFF,
        depth0 <= 0x1_0000_0000_0000_0000,
    ensures
        match r {
            Ok(p) => scan_fwd_line(line@, from as int, depth0 as int, open, close)
                == Ok::<int, int>(p as int) && from <= p < line@.len(),
            Err(d) => scan_fwd_line(line@, from as int, depth0 as int, open, close)
                == Err::<int, int>(d as int) && d <= depth0 + (line@.len() - from),
        },
{
    let n = line.unicode_len();
    let mut p: usize = from;
    let mut depth: u128 = depth0;
    while p < n
        invariant
            from <= p <= n,
            n == line@.len(),
            n <= 0xFFFF_FFFF,
            depth0 <= 0x1_0000_0000_0000_0000,
            depth <= depth0 + (p - from),
            scan_fwd_line(line@, from as int, depth0 as int, open, close) == scan_fwd_line(
                line@,
                p as int,
                depth as int,
                open,
                close,
            ),
        decreases n - p,
    {
        let ch = line.get_char(p);
        if ch == open {
            depth = depth + 1;
        } else if ch == close {
            if depth == 0 {
                return Ok(p);
            }
            depth = depth - 1;
        }
        p = p + 1;
    }
    Err(depth)
}

/// Block selection for one delimiter pair: backward scan to the enclosing
/// unmatched open, forward scan to its matching close; the interior when
/// both sit on one line, the whole lines strictly between them otherwise.
pub fn try_js_block(
    lines: &Vec<String>,
    cursor_line: usize,
    cursor_char: usize,
    open: char,
    close: char,
) -> (r: Option<SelectionRange>)
    requires
        cursor_line < lines@.len(),
        doc_fits(doc_view(lines)),
    ensures
        match spec_js_block(doc_view(lines), cursor_line as int, cursor_char as int, open, close) {
            Some(t) => r matches Some(sr) && sr.start_line == t.0 && sr.start_char == t.1
                && sr.end_line == t.2 && sr.end_char == t.3,
            None => r is None,
        },
{
    let ghost doc = doc_view(lines);
    // Backward scan: the part of the cursor line left of the cursor.
    let cur: &str = lines[cursor_line].as_str();
    let cur_len = cur.unicode_len();
    let first: Result<usize, u128> = if cursor_char > 0 && cur_len > 0 {
        let start = if cursor_char - 1 < cur_len {
            cursor_char - 1
        } else {
            cur_len - 1
        };
        back_scan_line(cur, start, 0, open, close)
    } else {
        proof {
            if cursor_char > 0 {
                assert(doc[cursor_line as int].len() == 0);
                assert(scan_back_line(doc[cursor_line as int], -1, 0, open, close) == Err::<
                    int,
                    int,
                >(0));
            }
        }
        Err(0)
    };

    let found_start: Option<(usize, usize)>;
    match first {
        Ok(p) => {
            found_start = Some((cursor_line, p));
        },
        Err(d0) => {
            // Whole previous lines, last character first.
            let mut li: usize = cursor_line;
            let mut depth: u128 = d0;
            let mut res: Option<(usize, usize)> = None;
            proof {
                lemma_chars_in_bound(doc, 0, cursor_line as int);
            }
            while li > 0
                invariant_except_break
                    res is None,
                    depth <= 0x1_0000_0000 + chars_in(doc, li as int, cursor_line as int),
                    chars_in(doc, 0, cursor_line as int) <= 0x1_0000_0000_0000_0000 - 0x1_0000_0000,
                    spec_find_open(doc, cursor_line as int, cursor_char as int, open, close)
                        == scan_back_lines(doc, li - 1, depth as int, open, close),
                invariant
                    0 <= li <= cursor_line < doc.len(),
                    doc == doc_view(lines),
                    doc_fits(doc),
                ensures
                    match res {
                        Some(t) => spec_find_open(
                            doc,
                            cursor_line as int,
                            cursor_char as int,
                            open,
                            close,
                        ) == Some((t.0 as int, t.1 as int)) && t.0 < doc.len() && t.1 < doc[
                            t.0 as int
                        ].len(),
                        None => spec_find_open(
                            doc,
                            cursor_line as int,
                            cursor_char as int,
                            open,
                            close,
                        ) is None,
                    },
                decreases li,
            {
                li = li - 1;
                let ln: &str = lines[li].as_str();
                let n = ln.unicode_len();
                proof {
                    lemma_chars_in_bound(doc, 0, li as int);
                    assert(chars_in(doc, li as int, cursor_line as int) <= chars_in(
                        doc,
                        0,
                        cursor_line as int,
                    )) by {
                        lemma_chars_in_split(doc, 0, li as int, cursor_line as int);
                    }
                }
                if n == 0 {
                    proof {
                        assert(scan_back_line(doc[li as int], -1, depth as int, open, close)
                            == Err::<int, int>(depth as int));
                    }
                } else {
                    let sc = back_scan_line(ln, n - 1, depth, open, close);
                    match sc {
                        Ok(p) => {
                            res = Some((li, p));
                            proof {
                                assert(scan_back_lines(doc, li as int, depth as int, open, close)
                                    == Some((li as int, p as int)));
                            }
                            break;
                        },
                        Err(d) => {
                            proof {
                                lemma_chars_in_split(doc, li as int, li + 1, cursor_line as int);
                            }
                            depth = d;
                        },
                    }
                }
                proof {
                    if li > 0 {
                        lemma_chars_in_split(doc, li - 1, li as int, cursor_line as int);
                    }
                }
            }
            found_start = res;
        },
    }

    let (start_l, start_c) = match found_start {
        Some(t) => t,
        None => {
            return None;
        },
    };

    // Forward scan: rest of the start line, then the following lines.
    let sline: &str = lines[start_l].as_str();
    let fwd_first = fwd_scan_line(sline, start_c + 1, 0, open, close);
    let found_end: Option<(usize, usize)>;
    match fwd_first {
        Ok(p) => {
            found_end = Some((start_l, p));
        },
        Err(d0) => {
            let n_lines = lines.len();
            let mut li: usize = start_l + 1;
            let mut depth: u128 = d0;
            let mut res: Option<(usize, usize)> = None;
            proof {
                lemma_chars_in_bound(doc, start_l as int, doc.len() as int);
            }
            while li < n_lines
                invariant_except_break
                    res is None,
                    depth <= 0x1_0000_0000 + chars_in(doc, start_l + 1, li as int),
                    chars_in(doc, start_l as int, doc.len() as int) <= 0x1_0000_0000_0000_0000
                        - 0x1_0000_0000,
                    spec_find_close(doc, start_l as int, start_c as int, open, close)
                        == scan_fwd_lines(doc, li as int, depth as int, open, close),
                invariant
                    start_l < li <= n_lines,
                    n_lines == doc.len(),
                    doc == doc_view(lines),
                    doc_fits(doc),
                ensures
                    match res {
                        Some(t) => spec_find_close(doc, start_l as int, start_c as int, open, close)
                            == Some((t.0 as int, t.1 as int)) && t.0 < doc.len() && t.1 < doc[
                            t.0 as int
                        ].len(),
                        None => spec_find_close(
                            doc,
                            start_l as int,
                            start_c as int,
                            open,
                            close,
                        ) is None,
                    },
                decreases n_lines - li,
            {
                let ln: &str = lines[li].as_str();
                proof {
                    lemma_chars_in_split(doc, start_l + 1, li as int, li + 1);
                    lemma_chars_in_split(doc, start_l as int, start_l + 1, li + 1);
                    lemma_chars_in_split(doc, start_l as int, li + 1, doc.len() as int);
                }
                let sc = fwd_scan_line(ln, 0, depth, open, close);
                match sc {
                    Ok(p) => {
                        res = Some((li, p));
                        break;
                    },
                    Err(d) => {
                        depth = d;
                    },
                }
                li = li + 1;
            }
            found_end = res;
        },
    }

    let (end_l, end_c) = match found_end {
        Some(t) => t,
        None => {
            return None;
        },
    };

    if start_l == end_l {
        Some(SelectionRange {
            start_line: to_u32(start_l),
            start_char: to_u32(start_c + 1),
            end_line: to_u32(end_l),
            end_char: to_u32(end_c),
        })
    } else {
        Some(SelectionRange {
            start_line: to_u32(start_l + 1),
            start_char: 0,
            end_line: to_u32(end_l),
            end_char: 0,
        })
    }
}

pub proof fn lemma_chars_in_split(doc: Seq<Seq<char>>, a: int, m: int, b: int)
    requires
        a <= m <= b,
    ensures
        chars_in(doc, a, b) == chars_in(doc, a, m) + chars_in(doc, m, b),
    decreases m - a,
{
    if a < m {
        lemma_chars_in_split(doc, a + 1, m, b);
    }
}

/// End of the run of tag-name characters starting at `j`.
pub open spec fn tag_run_end(line: Seq<char>, j: int) -> int
    decreases line.len() - j,
{
    if 0 <= j < line.len() && is_tag_char(line[j]) {
        tag_run_end(line, j + 1)
    } else {
        j
    }
}

/// First position at or after `i` where an opening tag (`<` followed by a
/// tag-name character) begins.
pub open spec fn open_tag_start(line: Seq<char>, i: int) -> Option<int>
    decreases line.len() - i,
{
    if i < 0 || i >= line.len() {
        None
    } else if line[i] == '<' && i + 1 < line.len() && is_tag_char(line[i + 1]) {
        Some(i)
    } else {
        open_tag_start(line, i + 1)
    }
}

/// The name of the first opening tag on the line, if any.
pub open spec fn first_tag_name(line: Seq<char>) -> Option<Seq<char>> {
    match open_tag_start(line, 0) {
        None => None,
        Some(i) => Some(line.subrange(i + 1, tag_run_end(line, i + 1))),
    }
}

/// A word boundary sits at position `j` after an occurrence of `tag`: the
/// word-character property changes between the tag's last character and the
/// character at `j` (the line end counts as a non-word character).
pub open spec fn tag_word_boundary(line: Seq<char>, tag: Seq<char>, j: int) -> bool {
    if tag.len() == 0 {
        true
    } else if is_word(tag[tag.len() - 1]) {
        j >= line.len() || !is_word(line[j])
    } else {
        j < line.len() && is_word(line[j])
    }
}

/// An opening occurrence `<tag` ends on a word boundary at position `i`.
pub open spec fn open_tag_at(line: Seq<char>, tag: Seq<char>, i: int) -> bool {
    &&& 0 <= i
    &&& i + 1 + tag.len() <= line.len()
    &&& line[i] == '<'
    &&& occurs_at(line, tag, i + 1)
    &&& tag_word_boundary(line, tag, i + 1 + tag.len())
}

/// A closing occurrence `</tag   >` at position `i`.
pub open spec fn close_tag_at(line: Seq<char>, tag: Seq<char>, i: int) -> bool {
    &&& 0 <= i
    &&& i + 2 + tag.len() <= line.len()
    &&& line[i] == '<'
    &&& line[i + 1] == '/'
    &&& occurs_at(line, tag, i + 2)
    &&& {
        let k = ws_run_end(line, i + 2 + tag.len());
        k < line.len() && line[k] == '>'
    }
}

/// Number of opening occurrences of `tag` at positions at or after `i`.
pub open spec fn count_opens(line: Seq<char>, tag: Seq<char>, i: int) -> nat
    decreases line.len() - i,
{
    if i < 0 || i >= line.len() {
        0
    } else {
        (if open_tag_at(line, tag, i) {
            1nat
        } else {
            0nat
        }) + count_opens(line, tag, i + 1)
    }
}

/// Number of closing occurrences of `tag` at positions at or after `i`.
pub open spec fn count_closes(line: Seq<char>, tag: Seq<char>, i: int) -> nat
    decreases line.len() - i,
{
    if i < 0 || i >= line.len() {
        0
    } else {
        (if close_tag_at(line, tag, i) {
            1nat
        } else {
            0nat
        }) + count_closes(line, tag, i + 1)
    }
}

/// Backward per-line scan for the line that opens the tag pair: depth grows
/// with closes and shrinks with opens; the first line at depth at most zero
/// that itself contains an opening occurrence is the start line.
pub open spec fn html_back(doc: Seq<Seq<char>>, tag: Seq<char>, li: int, depth: int) -> Option<int>
    decreases li + 1,
{
    if li < 0 {
        None
    } else {
        let opens = count_opens(doc[li], tag, 0) as int;
        let closes = count_closes(doc[li], tag, 0) as int;
        let d2 = depth + closes - opens;
        if d2 <= 0 && opens > 0 {
            Some(li)
        } else if li == 0 {
            None
        } else {
            html_back(doc, tag, li - 1, d2)
        }
    }
}

/// Forward per-line scan for the line that closes the tag pair.
pub open spec fn html_fwd(doc: Seq<Seq<char>>, tag: Seq<char>, li: int, depth: int) -> Option<int>
    decreases doc.len() - li,
{
    if li < 0 || li >= doc.len() {
        None
    } else {
        let opens = count_opens(doc[li], tag, 0) as int;
        let closes = count_closes(doc[li], tag, 0) as int;
        let d2 = depth + opens - closes;
        if d2 <= 0 && closes > 0 {
            Some(li)
        } else {
            html_fwd(doc, tag, li + 1, d2)
        }
    }
}

/// The range a markup-tag block selection yields: the lines strictly between
/// the opening-tag line and the closing-tag line, or nothing when the pair
/// does not span more than one line or is unbalanced.
pub open spec fn spec_html_block(doc: Seq<Seq<char>>, cl: int) -> Option<(int, int, int, int)> {
    match first_tag_name(doc[cl]) {
        None => None,
        Some(tag) => match html_back(doc, tag, cl, 0) {
            None => None,
            Some(sl) => match html_fwd(doc, tag, sl, 0) {
                None => None,
                Some(el) => if sl < el {
                    Some((sl + 1, 0, el, 0))
                } else {
                    None
                },
            },
        },
    }
}

/// The first opening tag of the line: its `<` position and its name.
fn find_first_tag(line: &str) -> (r: Option<(usize, String)>)
    ensures
        match r {
            Some((i, name)) => open_tag_start(line@, 0) == Some(i as int) && Some(name@)
                == first_tag_name(line@),
            None => first_tag_name(line@) is None,
        },
{
    let n = line.unicode_len();
    let mut i: usize = 0;
    while i < n
        invariant
            0 <= i <= n,
            n == line@.len(),
            open_tag_start(line@, 0) == open_tag_start(line@, i as int),
        decreases n - i,
    {
        if line.get_char(i) == '<' && i + 1 < n && is_tag_name_char(line.get_char(i + 1)) {
            // scan the name run
            let mut j: usize = i + 1;
            while j < n && is_tag_name_char(line.get_char(j))
                invariant
                    i + 1 <= j <= n,
                    n == line@.len(),
                    tag_run_end(line@, i + 1) == tag_run_end(line@, j as int),
                decreases n - j,
            {
                j = j + 1;
            }
            let name = line.substring_char(i + 1, j).to_owned();
            return Some((i, name));
        }
        i = i + 1;
    }
    None
}

/// Opening and closing occurrence counts of `tag` on one line.
fn count_tag_marks(line: &str, tag: &str) -> (r: (usize, usize))
    requires
        tag@.len() >= 1,
    ensures
        r.0 == count_opens(line@, tag@, 0),
        r.1 == count_closes(line@, tag@, 0),
        r.0 <= line@.len(),
        r.1 <= line@.len(),
{
    let n = line.unicode_len();
    let tn = tag.unicode_len();
    let mut opens: usize = 0;
    let mut closes: usize = 0;
    let mut i: usize = 0;
    while i < n
        invariant
            0 <= i <= n,
            n == line@.len(),
            tn == tag@.len(),
            tn >= 1,
            opens + count_opens(line@, tag@, i as int) == count_opens(line@, tag@, 0),
            closes + count_closes(line@, tag@, i as int) == count_closes(line@, tag@, 0),
            opens <= i,
            closes <= i,
        decreases n - i,
    {
        // opening occurrence at i
        let mut is_open = false;
        if line.get_char(i) == '<' && tn <= n && i + 1 <= n - tn {
            if occurs_at_check(line, tag, i + 1) {
                let j = i + 1 + tn;
                let last = tag.get_char(tn - 1);
                if is_word_char(last) {
                    is_open = j >= n || !is_word_char(line.get_char(j));
                } else {
                    is_open = j < n && is_word_char(line.get_char(j));
                }
                proof {
                    assert(tag@[tn - 1] == last);
                }
            }
        }
        proof {
            assert(is_open == open_tag_at(line@, tag@, i as int));
        }
        // closing occurrence at i
        let mut is_close = false;
        if line.get_char(i) == '<' && i + 1 < n && line.get_char(i + 1) == '/' && tn <= n && i + 2
            <= n - tn {
            if occurs_at_check(line, tag, i + 2) {
                let k = skip_ws_idx(line, i + 2 + tn);
                is_close = k < n && line.get_char(k) == '>';
            }
        }
        proof {
            assert(is_close == close_tag_at(line@, tag@, i as int));
        }
        if is_open {
            opens = opens + 1;
        }
        if is_close {
            closes = closes + 1;
        }
        i = i + 1;
    }
    (opens, closes)
}

/// Markup tag block selection: the first tag named on the cursor line is
/// matched backward to its opening line and forward to its closing line.
pub fn try_html_block(lines: &Vec<String>, cursor_line: usize) -> (r: Option<SelectionRange>)
    requires
        cursor_line < lines@.len(),
        doc_fits(doc_view(lines)),
    ensures
        match spec_html_block(doc_view(lines), cursor_line as int) {
            Some(t) => r matches Some(sr) && sr.start_line == t.0 && sr.start_char == t.1
                && sr.end_line == t.2 && sr.end_char == t.3,
            None => r is None,
        },
{
    let ghost doc = doc_view(lines);
    let tag: String = match find_first_tag(lines[cursor_line].as_str()) {
        Some((_, name)) => name,
        None => {
            return None;
        },
    };
    if tag.as_str().unicode_len() == 0 {
        // cannot happen: a found tag name has at least one character;
        // kept so the counting functions always get a nonempty pattern
        proof {
            let line = doc[cursor_line as int];
            assert(line == lines@[cursor_line as int]@);
            assert(first_tag_name(line) == Some(tag@));
            let i = open_tag_start(line, 0).unwrap();
            lemma_open_tag_start_props(line, 0);
            assert(tag_run_end(line, i + 1) > i + 1);
            assert(tag@.len() == tag_run_end(line, i + 1) - (i + 1));
            assert(false);
        }
        return None;
    }

    // Backward: find the opening line.
    let mut li: usize = cursor_line;
    let mut depth: i128 = 0;
    let mut start_line_opt: Option<usize> = None;
    proof {
        lemma_chars_in_bound(doc, 0, cursor_line + 1);
    }
    loop
        invariant_except_break
            start_line_opt is None,
            -(2 * chars_in(doc, li + 1, cursor_line + 1) as int) <= depth as int <= 2 * chars_in(
                doc,
                li + 1,
                cursor_line + 1,
            ) as int,
            html_back(doc, tag@, cursor_line as int, 0) == html_back(
                doc,
                tag@,
                li as int,
                depth as int,
            ),
        invariant
            0 <= li <= cursor_line < doc.len(),
            doc == doc_view(lines),
            doc_fits(doc),
            tag@.len() >= 1,
            chars_in(doc, 0, cursor_line + 1) <= 0x1_0000_0000_0000_0000,
        ensures
            match start_line_opt {
                Some(s) => html_back(doc, tag@, cursor_line as int, 0) == Some(s as int) && s
                    <= cursor_line,
                None => html_back(doc, tag@, cursor_line as int, 0) is None,
            },
        decreases li,
    {
        let (opens, closes) = count_tag_marks(lines[li].as_str(), tag.as_str());
        proof {
            lemma_chars_in_split(doc, li as int, li + 1, cursor_line + 1);
            lemma_chars_in_split(doc, 0, li as int, cursor_line + 1);
        }
        depth = depth + closes as i128 - opens as i128;
        if depth <= 0 && opens > 0 {
            start_line_opt = Some(li);
            break;
        }
        if li == 0 {
            break;
        }
        li = li - 1;
    }
    let start_line = match start_line_opt {
        Some(s) => s,
        None => {
            return None;
        },
    };

    // Forward: find the closing line.
    let n_lines = lines.len();
    let mut lj: usize = start_line;
    let mut fdepth: i128 = 0;
    let mut end_line_opt: Option<usize> = None;
    proof {
        lemma_chars_in_bound(doc, start_line as int, doc.len() as int);
    }
    while lj < n_lines
        invariant_except_break
            end_line_opt is None,
            -(2 * chars_in(doc, start_line as int, lj as int) as int) <= fdepth as int <= 2
                * chars_in(doc, start_line as int, lj as int) as int,
            html_fwd(doc, tag@, start_line as int, 0) == html_fwd(
                doc,
                tag@,
                lj as int,
                fdepth as int,
            ),
        invariant
            start_line <= lj <= n_lines,
            n_lines == doc.len(),
            doc == doc_view(lines),
            doc_fits(doc),
            tag@.len() >= 1,
            chars_in(doc, start_line as int, doc.len() as int) <= 0x1_0000_0000_0000_0000,
        ensures
            match end_line_opt {
                Some(e) => html_fwd(doc, tag@, start_line as int, 0) == Some(e as int) && e
                    < n_lines,
                None => html_fwd(doc, tag@, start_line as int, 0) is None,
            },
        decreases n_lines - lj,
    {
        let (opens, closes) = count_tag_marks(lines[lj].as_str(), tag.as_str());
        proof {
            lemma_chars_in_split(doc, start_line as int, lj as int, lj + 1);
            lemma_chars_in_split(doc, start_line as int, lj + 1, doc.len() as int);
        }
        fdepth = fdepth + opens as i128 - closes as i128;
        if fdepth <= 0 && closes > 0 {
            end_line_opt = Some(lj);
            break;
        }
        lj = lj + 1;
    }
    let end_line = match end_line_opt {
        Some(e) => e,
        None => {
            return None;
        },
    };

    if start_line < end_line {
        Some(SelectionRange {
            start_line: to_u32(start_line + 1),
            start_char: 0,
            end_line: to_u32(end_line),
            end_char: 0,
        })
    } else {
        None
    }
}

/// The tag-name run end never precedes its start.
proof fn lemma_tag_run_end_ge(line: Seq<char>, j: int)
    ensures
        tag_run_end(line, j) >= j,
        j <= line.len() ==> tag_run_end(line, j) <= line.len(),
    decreases line.len() - j,
{
    if 0 <= j < line.len() && is_tag_char(line[j]) {
        lemma_tag_run_end_ge(line, j + 1);
    }
}

/// A found opening-tag start is followed by at least one tag character.
proof fn lemma_open_tag_start_props(line: Seq<char>, i: int)
    requires
        i >= 0,
        open_tag_start(line, i) is Some,
    ensures
        ({
            let s = open_tag_start(line, i).unwrap();
            &&& i <= s
            &&& s + 1 < line.len()
            &&& is_tag_char(line[s + 1])
            &&& s + 1 < tag_run_end(line, s + 1) <= line.len()
        }),
    decreases line.len() - i,
{
    if i < line.len() {
        if line[i] == '<' && i + 1 < line.len() && is_tag_char(line[i + 1]) {
            lemma_tag_run_end_ge(line, i + 2);
        } else {
            lemma_open_tag_start_props(line, i + 1);
        }
    }
}

/// A continuation line: its trimmed text begins with one of `. | + ,`.
pub open spec fn starts_chain(line: Seq<char>) -> bool {
    let t = trim_view(line);
    t.len() > 0 && (t[0] == '.' || t[0] == '|' || t[0] == '+' || t[0] == ',')
}

/// First line of the chain around `s`, absorbing one non-blank anchor line.
pub open spec fn chain_start(doc: Seq<Seq<char>>, s: int) -> int
    decreases s,
{
    if s <= 0 {
        0
    } else if starts_chain(doc[s - 1]) {
        chain_start(doc, s - 1)
    } else if trim_view(doc[s - 1]).len() > 0 {
        s - 1
    } else {
        s
    }
}

/// Last line of the chain around `e`.
pub open spec fn chain_end(doc: Seq<Seq<char>>, e: int) -> int
    decreases doc.len() - e,
{
    if e < 0 || e + 1 >= doc.len() {
        e
    } else if starts_chain(doc[e + 1]) {
        chain_end(doc, e + 1)
    } else {
        e
    }
}

/// The range a continuation-chain block selection yields.
pub open spec fn spec_line_block(doc: Seq<Seq<char>>, cl: int) -> Option<(int, int, int, int)> {
    if !starts_chain(doc[cl]) {
        None
    } else {
        let s = chain_start(doc, cl);
        let e = chain_end(doc, cl);
        if s < e {
            Some((s, 0, e + 1, 0))
        } else {
            None
        }
    }
}

/// Whether the trimmed line begins with a continuation marker.
fn is_chain_line(line: &str) -> (r: bool)
    ensures
        r == starts_chain(line@),
{
    let t = trim_str(line);
    if t.unicode_len() == 0 {
        return false;
    }
    let c = t.get_char(0);
    c == '.' || c == '|' || c == '+' || c == ','
}

/// Continuation-chain block selection: walks up over chain lines plus one
/// non-blank anchor line, and down over chain lines.
pub fn try_line_block(lines: &Vec<String>, cursor_line: usize) -> (r: Option<SelectionRange>)
    requires
        cursor_line < lines@.len(),
        doc_fits(doc_view(lines)),
    ensures
        match spec_line_block(doc_view(lines), cursor_line as int) {
            Some(t) => r matches Some(sr) && sr.start_line == t.0 && sr.start_char == t.1
                && sr.end_line == t.2 && sr.end_char == t.3,
            None => r is None,
        },
{
    let ghost doc = doc_view(lines);
    if !is_chain_line(lines[cursor_line].as_str()) {
        return None;
    }
    let mut start: usize = cursor_line;
    loop
        invariant_except_break
            chain_start(doc, cursor_line as int) == chain_start(doc, start as int),
        invariant
            0 <= start <= cursor_line < doc.len(),
            doc == doc_view(lines),
        ensures
            start == chain_start(doc, cursor_line as int),
        decreases start,
    {
        if start == 0 {
            break;
        }
        if is_chain_line(lines[start - 1].as_str()) {
            start = start - 1;
        } else {
            let prev = trim_str(lines[start - 1].as_str());
            if prev.unicode_len() != 0 {
                start = start - 1;
            }
            break;
        }
    }
    let n_lines = lines.len();
    let mut end: usize = cursor_line;
    loop
        invariant_except_break
            chain_end(doc, cursor_line as int) == chain_end(doc, end as int),
        invariant
            cursor_line <= end < doc.len(),
            n_lines == doc.len(),
            doc == doc_view(lines),
        ensures
            end == chain_end(doc, cursor_line as int),
        decreases n_lines - end,
    {
        if end + 1 >= n_lines {
            break;
        }
        if is_chain_line(lines[end + 1].as_str()) {
            end = end + 1;
        } else {
            break;
        }
    }
    if start < end {
        Some(SelectionRange {
            start_line: to_u32(start),
            start_char: 0,
            end_line: to_u32(end + 1),
            end_char: 0,
        })
    } else {
        None
    }
}

/// The range block selection yields: the bracket pairs `{}`, `[]`, `()` are
/// tried in that order, then the markup tag matcher, then the
/// continuation-chain selector; the first success wins.
pub open spec fn spec_block_selection(doc: Seq<Seq<char>>, cl: int, cc: int) -> Option<
    (int, int, int, int),
> {
    if cl >= doc.len() {
        None
    } else if spec_js_block(doc, cl, cc, '{', '}') is Some {
        spec_js_block(doc, cl, cc, '{', '}')
    } else if spec_js_block(doc, cl, cc, '[', ']') is Some {
        spec_js_block(doc, cl, cc, '[', ']')
    } else if spec_js_block(doc, cl, cc, '(', ')') is Some {
        spec_js_block(doc, cl, cc, '(', ')')
    } else if spec_html_block(doc, cl) is Some {
        spec_html_block(doc, cl)
    } else {
        spec_line_block(doc, cl)
    }
}

/// Block selection around the cursor; the smallest enclosing structural
/// region under the fixed trial order of the construct kinds.
pub fn compute_block_selection(lines: &Vec<String>, start_line: usize, start_char: usize) -> (r:
    Option<SelectionRange>)
    requires
        doc_fits(doc_view(lines)),
    ensures
        match spec_block_selection(doc_view(lines), start_line as int, start_char as int) {
            Some(t) => r matches Some(sr) && sr.start_line == t.0 && sr.start_char == t.1
                && sr.end_line == t.2 && sr.end_char == t.3,
            None => r is None,
        },
{
    if start_line >= lines.len() {
        return None;
    }
    if let Some(range) = try_js_block(lines, start_line, start_char, '{', '}') {
        return Some(range);
    }
    if let Some(range) = try_js_block(lines, start_line, start_char, '[', ']') {
        return Some(range);
    }
    if let Some(range) = try_js_block(lines, start_line, start_char, '(', ')') {
        return Some(range);
    }
    if let Some(range) = try_html_block(lines, start_line) {
        return Some(range);
    }
    if let Some(range) = try_line_block(lines, start_line) {
        return Some(range);
    }
    None
}

/// The delimiter pairs whose adjacent halves backspace collapses at once.
pub open spec fn pair_match(a: char, b: char) -> bool {
    (a == '{' && b == '}') || (a == '[' && b == ']') || (a == '(' && b == ')') || (a == '\'' && b
        == '\'') || (a == '"' && b == '"') || (a == '`' && b == '`')
}

/// The range a smart backspace deletes (the replacement text is always
/// empty): a paired-delimiter collapse, a blank-line merge into the previous
/// line, or an unindent to the previous two-wide indent stop.
pub open spec fn spec_backspace(doc: Seq<Seq<char>>, cl: int, cc: int) -> Option<
    (int, int, int, int),
> {
    if cl >= doc.len() || cc == 0 || cc > doc[cl].len() {
        None
    } else if cc < doc[cl].len() && pair_match(doc[cl][cc - 1], doc[cl][cc]) {
        Some((cl, cc - 1, cl, cc + 1))
    } else if trim_view(doc[cl]).len() == 0 && cl > 0 {
        Some((cl - 1, doc[cl - 1].len() as int, cl, doc[cl].len() as int))
    } else if cc <= leading_ws(doc[cl]) {
        let d: int = if cc % 2 == 0 {
            if cc < 2 {
                cc
            } else {
                2
            }
        } else {
            1
        };
        Some((cl, cc - d, cl, cc))
    } else {
        None
    }
}

/// Smart backspace: a single edit collapsing a delimiter pair, merging a
/// blank line upward, or snapping the indent back one stop; absent when
/// ordinary single-character deletion should apply.
pub fn compute_backspace_edit(lines: &Vec<String>, cursor_line: usize, cursor_char: usize) -> (r:
    Option<EditOperation>)
    requires
        doc_fits(doc_view(lines)),
    ensures
        match spec_backspace(doc_view(lines), cursor_line as int, cursor_char as int) {
            Some(t) => r matches Some(op) && op.start_line == t.0 && op.start_char == t.1
                && op.end_line == t.2 && op.end_char == t.3 && op.text@ =~= Seq::<char>::empty(),
            None => r is None,
        },
{
    let ghost doc = doc_view(lines);
    if cursor_line >= lines.len() || cursor_char == 0 {
        return None;
    }
    let line: &str = lines[cursor_line].as_str();
    let n = line.unicode_len();
    if cursor_char > n {
        return None;
    }

    // paired delimiter collapse
    if cursor_char < n {
        let prev = line.get_char(cursor_char - 1);
        let next = line.get_char(cursor_char);
        let paired = (prev == '{' && next == '}') || (prev == '[' && next == ']') || (prev == '('
            && next == ')') || (prev == '\'' && next == '\'') || (prev == '"' && next == '"') || (
        prev == '`' && next == '`');
        if paired {
            return Some(EditOperation {
                start_line: to_u32(cursor_line),
                start_char: to_u32(cursor_char - 1),
                end_line: to_u32(cursor_line),
                end_char: to_u32(cursor_char + 1),
                text: String::new(),
            });
        }
    }

    // blank-line merge
    let t = trim_str(line);
    if t.unicode_len() == 0 && cursor_line > 0 {
        let prev_len = lines[cursor_line - 1].as_str().unicode_len();
        return Some(EditOperation {
            start_line: to_u32(cursor_line - 1),
            start_char: to_u32(prev_len),
            end_line: to_u32(cursor_line),
            end_char: to_u32(n),
            text: String::new(),
        });
    }

    // unindent to the previous two-wide stop
    let leading = trim_start_index(line);
    if cursor_char <= leading {
        let delete: usize = if cursor_char % 2 == 0 {
            if cursor_char < 2 {
                cursor_char
            } else {
                2
            }
        } else {
            1
        };
        return Some(EditOperation {
            start_line: to_u32(cursor_line),
            start_char: to_u32(cursor_char - delete),
            end_line: to_u32(cursor_line),
            end_char: to_u32(cursor_char),
            text: String::new(),
        });
    }

    None
}

/// Insertion produced after a function-like line: the text to insert and
/// where the cursor lands.
#[derive(Clone, Debug)]
pub struct EnhanceResult {
    pub insert_text: String,
    pub cursor_line: u32,
    pub cursor_char: u32,
    /// "insert" or "snippet"
    pub action_type: String,
}

/// Every character of `s` is an identifier character.
pub open spec fn all_word(s: Seq<char>) -> bool {
    forall|i: int| 0 <= i < s.len() ==> is_word(#[trigger] s[i])
}

/// A line of the shape `data ( ) {` with optional whitespace between the
/// tokens and around them.
pub open spec fn data_func_line(line: Seq<char>) -> bool {
    let a = ws_run_end(line, 0);
    &&& a + 4 <= line.len()
    &&& line[a] == 'd' && line[a + 1] == 'a' && line[a + 2] == 't' && line[a + 3] == 'a'
    &&& {
        let b = ws_run_end(line, a + 4);
        &&& b < line.len() && line[b] == '('
        &&& {
            let c = ws_run_end(line, b + 1);
            &&& c < line.len() && line[c] == ')'
            &&& {
                let d = ws_run_end(line, c + 1);
                &&& d < line.len() && line[d] == '{'
                &&& ws_run_end(line, d + 1) == line.len()
            }
        }
    }
}

/// A trimmed line that is a bare method name, optionally behind an `async`
/// prefix; yields the name and whether the prefix was present.
pub open spec fn method_name_of(t: Seq<char>) -> Option<(bool, Seq<char>)> {
    if t.len() >= 5 && t[0] == 'a' && t[1] == 's' && t[2] == 'y' && t[3] == 'n' && t[4] == 'c' {
        let r = t.subrange(ws_run_end(t, 5), t.len() as int);
        if r.len() >= 1 && all_word(r) {
            Some((true, r))
        } else if t.len() >= 1 && all_word(t) {
            Some((false, t))
        } else {
            None
        }
    } else if t.len() >= 1 && all_word(t) {
        Some((false, t))
    } else {
        None
    }
}

/// The insertion a function-like line earns: an indented blank body line
/// after a trailing `{`, a `return { ... }` skeleton after a `data ( ) {`
/// header, or a full method template after a bare method name.
pub open spec fn spec_enhance(doc: Seq<Seq<char>>, cl: int, ts: Seq<char>) -> Option<
    (Seq<char>, int, int, bool),
> {
    if cl >= doc.len() {
        None
    } else {
        let line = doc[cl];
        let t = trim_view(line);
        let indent = line.subrange(0, leading_ws(line) as int);
        if t.len() > 0 && t[t.len() - 1] == '{' {
            Some(("\n"@ + indent + ts, cl + 1, indent.len() + ts.len() as int, false))
        } else if data_func_line(line) {
            let inner = indent + ts;
            Some(
                (
                    "\n"@ + inner + "return {"@ + "\n"@ + inner + ts + "\n"@ + inner + "}"@,
                    cl + 2,
                    indent.len() + 2 * ts.len() as int,
                    false,
                ),
            )
        } else {
            match method_name_of(t) {
                Some((is_async, name)) => Some(
                    (
                        (if is_async {
                            "async "@
                        } else {
                            Seq::<char>::empty()
                        }) + name + "() {"@ + "\n"@ + indent + ts + "\n"@ + indent + "},"@,
                        cl + 1,
                        indent.len() + ts.len() as int,
                        true,
                    ),
                ),
                None => None,
            }
        }
    }
}

/// Whether the whole line is a `data ( ) {` header.
fn data_func_check(line: &str) -> (r: bool)
    ensures
        r == data_func_line(line@),
{
    let n = line.unicode_len();
    let a = skip_ws_idx(line, 0);
    if n < 4 || a > n - 4 {
        return false;
    }
    if !(line.get_char(a) == 'd' && line.get_char(a + 1) == 'a' && line.get_char(a + 2) == 't'
        && line.get_char(a + 3) == 'a') {
        return false;
    }
    let b = skip_ws_idx(line, a + 4);
    if !(b < n && line.get_char(b) == '(') {
        return false;
    }
    let c = skip_ws_idx(line, b + 1);
    if !(c < n && line.get_char(c) == ')') {
        return false;
    }
    let d = skip_ws_idx(line, c + 1);
    if !(d < n && line.get_char(d) == '{') {
        return false;
    }
    skip_ws_idx(line, d + 1) == n
}

/// The method name of a trimmed line, with its `async` prefix flag.
fn method_name_check(t: &str) -> (r: Option<(bool, String)>)
    ensures
        match r {
            Some((is_async, name)) => method_name_of(t@) == Some((is_async, name@)),
            None => method_name_of(t@) is None,
        },
{
    let n = t.unicode_len();
    let is_async_prefix = n >= 5 && t.get_char(0) == 'a' && t.get_char(1) == 's' && t.get_char(2)
        == 'y' && t.get_char(3) == 'n' && t.get_char(4) == 'c';
    if is_async_prefix {
        let w = skip_ws_idx(t, 5);
        let rest = t.substring_char(w, n);
        if rest.unicode_len() >= 1 && all_word_check(rest) {
            return Some((true, rest.to_owned()));
        }
    }
    if n >= 1 && all_word_check(t) {
        return Some((false, t.to_owned()));
    }
    None
}

/// Whether every character of `s` is an identifier character.
fn all_word_check(s: &str) -> (r: bool)
    ensures
        r == all_word(s@),
{
    let n = s.unicode_len();
    let mut i: usize = 0;
    while i < n
        invariant
            0 <= i <= n,
            n == s@.len(),
            forall|j: int| 0 <= j < i ==> is_word(#[trigger] s@[j]),
        decreases n - i,
    {
        if !is_word_char(s.get_char(i)) {
            return false;
        }
        i = i + 1;
    }
    true
}

/// Body-template insertion for the line under the cursor; `tab_size` is the
/// host's indentation unit.
pub fn compute_func_enhance_text(
    lines: &Vec<String>,
    cursor_line: usize,
    tab_size: &str,
) -> (r: Option<EnhanceResult>)
    requires
        doc_fits(doc_view(lines)),
        cursor_line + 2 <= 0xFFFF_FFFF,
        cursor_line < lines@.len() ==> leading_ws(lines@[cursor_line as int]@) + 2 * tab_size@.len()
            <= 0xFFFF_FFFF,
    ensures
        match spec_enhance(doc_view(lines), cursor_line as int, tab_size@) {
            Some(t) => r matches Some(er) && er.insert_text@ == t.0 && er.cursor_line == t.1
                && er.cursor_char == t.2 && er.action_type@ == (if t.3 {
                "snippet"@
            } else {
                "insert"@
            }),
            None => r is None,
        },
{
    let ghost doc = doc_view(lines);
    if cursor_line >= lines.len() {
        return None;
    }
    let line: &str = lines[cursor_line].as_str();
    let n = line.unicode_len();
    let trimmed = trim_str(line);
    let tlen = trimmed.unicode_len();
    let lead = trim_start_index(line);
    proof {
        crate::text::lemma_leading_ws_le(line@);
    }
    let indent: &str = line.substring_char(0, lead);
    let ts_len = tab_size.unicode_len();

    if tlen > 0 && trimmed.get_char(tlen - 1) == '{' {
        let mut insert = String::new();
        insert.append("\n");
        insert.append(indent);
        insert.append(tab_size);
        return Some(EnhanceResult {
            insert_text: insert,
            cursor_line: to_u32(cursor_line + 1),
            cursor_char: to_u32(lead + ts_len),
            action_type: String::from_str("insert"),
        });
    }

    if data_func_check(line) {
        let mut insert = String::new();
        insert.append("\n");
        insert.append(indent);
        insert.append(tab_size);
        insert.append("return {");
        insert.append("\n");
        insert.append(indent);
        insert.append(tab_size);
        insert.append(tab_size);
        insert.append("\n");
        insert.append(indent);
        insert.append(tab_size);
        insert.append("}");
        return Some(EnhanceResult {
            insert_text: insert,
            cursor_line: to_u32(cursor_line + 2),
            cursor_char: to_u32(lead + ts_len + ts_len),
            action_type: String::from_str("insert"),
        });
    }

    match method_name_check(trimmed) {
        Some((is_async, name)) => {
            let mut insert = String::new();
            if is_async {
                insert.append("async ");
            }
            insert.append(name.as_str());
            insert.append("() {");
            insert.append("\n");
            insert.append(indent);
            insert.append(tab_size);
            insert.append("\n");
            insert.append(indent);
            insert.append("},");
            Some(EnhanceResult {
                insert_text: insert,
                cursor_line: to_u32(cursor_line + 1),
                cursor_char: to_u32(lead + ts_len),
                action_type: String::from_str("snippet"),
            })
        },
        None => None,
    }
}

} // verus!
