//! In-file symbol lookup: extraction of the module path named on an
//! import/require line, and the brace-depth state machine that finds a
//! named option-section and an identifier inside an embedded script block.

use vstd::prelude::*;

use crate::text::{
    is_space, is_word, is_word_char, trim_view, trim_str, occurs_at, find_from, rfind_all,
    trailing_ws,
    ws_run_end, skip_ws_idx, find_sub_from, rfind_sub_all, rfind_sub_upto, trim_end_index, str_eq,
    starts_with, lower_of, lowercase_str, push_char, to_u32, find_sub, contains_sub,
};

verus! {

/// A resolved definition: a file path (empty = same document) and the
/// position just past the found identifier.
#[derive(Clone, Debug)]
pub struct DefinitionLocation {
    pub file_path: String,
    pub line: u32,
    pub character: u32,
}

/// A single or double quote.
pub open spec fn quoteish(c: char) -> bool {
    c == '\'' || c == '"'
}

fn is_quote(c: char) -> (r: bool)
    ensures
        r == quoteish(c),
{
    c == '\'' || c == '"'
}

/// First index at or after `i` holding a quote character.
pub open spec fn first_quote(line: Seq<char>, i: int) -> Option<int>
    decreases line.len() - i,
{
    if i < 0 || i >= line.len() {
        None
    } else if quoteish(line[i]) {
        Some(i)
    } else {
        first_quote(line, i + 1)
    }
}

fn first_quote_idx(line: &str, from: usize) -> (r: Option<usize>)
    requires
        from <= line@.len(),
    ensures
        match r {
            Some(i) => first_quote(line@, from as int) == Some(i as int) && from <= i
                < line@.len(),
            None => first_quote(line@, from as int) is None,
        },
{
    let n = line.unicode_len();
    let mut i: usize = from;
    while i < n
        invariant
            from <= i <= n,
            n == line@.len(),
            first_quote(line@, from as int) == first_quote(line@, i as int),
        decreases n - i,
    {
        if is_quote(line.get_char(i)) {
            return Some(i);
        }
        i = i + 1;
    }
    None
}

/// Last index holding a quote character immediately followed by `)`.
pub open spec fn rlast_quote_paren(line: Seq<char>, i: int) -> Option<int>
    decreases i + 1,
{
    if i < 0 {
        None
    } else if quoteish(line[i]) && i + 1 < line.len() && line[i + 1] == ')' {
        Some(i)
    } else {
        rlast_quote_paren(line, i - 1)
    }
}

fn rlast_quote_paren_idx(line: &str) -> (r: Option<usize>)
    ensures
        match r {
            Some(i) => rlast_quote_paren(line@, line@.len() - 1) == Some(i as int) && i
                < line@.len(),
            None => rlast_quote_paren(line@, line@.len() - 1) is None,
        },
{
    let n = line.unicode_len();
    let mut i: usize = n;
    while i > 0
        invariant
            0 <= i <= n,
            n == line@.len(),
            rlast_quote_paren(line@, n - 1) == rlast_quote_paren(line@, i - 1),
        decreases i,
    {
        i = i - 1;
        if is_quote(line.get_char(i)) && i + 1 < n && line.get_char(i + 1) == ')' {
            return Some(i);
        }
    }
    None
}

/// Last index holding a quote character.
pub open spec fn rlast_quote(line: Seq<char>, i: int) -> Option<int>
    decreases i + 1,
{
    if i < 0 {
        None
    } else if quoteish(line[i]) {
        Some(i)
    } else {
        rlast_quote(line, i - 1)
    }
}

fn rlast_quote_idx(line: &str) -> (r: Option<usize>)
    ensures
        match r {
            Some(i) => rlast_quote(line@, line@.len() - 1) == Some(i as int) && i < line@.len(),
            None => rlast_quote(line@, line@.len() - 1) is None,
        },
{
    let n = line.unicode_len();
    let mut i: usize = n;
    while i > 0
        invariant
            0 <= i <= n,
            n == line@.len(),
            rlast_quote(line@, n - 1) == rlast_quote(line@, i - 1),
        decreases i,
    {
        i = i - 1;
        if is_quote(line.get_char(i)) {
            return Some(i);
        }
    }
    None
}

/// End position of the line body once trailing whitespace, one optional
/// semicolon, and the whitespace before it are stripped.
pub open spec fn stmt_end(line: Seq<char>) -> int {
    let e0 = line.len() - trailing_ws(line);
    if e0 > 0 && line[e0 - 1] == ';' {
        (e0 - 1) - trailing_ws(line.subrange(0, e0 - 1))
    } else {
        e0
    }
}

fn stmt_end_idx(line: &str) -> (r: usize)
    ensures
        r == stmt_end(line@),
        r <= line@.len(),
{
    let e0 = trim_end_index(line);
    proof {
        crate::text::lemma_trailing_ws_le(line@);
    }
    if e0 > 0 && line.get_char(e0 - 1) == ';' {
        let head = line.substring_char(0, e0 - 1);
        let r = trim_end_index(head);
        proof {
            crate::text::lemma_trailing_ws_le(head@);
        }
        r
    } else {
        e0
    }
}

/// The `import ... from '...'` shape anchored at the `import` occurrence
/// `im`: at least one blank after `import` and one before the last `from`,
/// then a quoted path closing at the end of the statement.
pub open spec fn import_from_at(line: Seq<char>, im: int) -> Option<Seq<char>> {
    if im + 6 < line.len() && is_space(line[im + 6]) {
        match rfind_all(line, "from"@) {
            None => None,
            Some(f) => if f >= im + 8 && is_space(line[f - 1]) {
                let q = ws_run_end(line, f + 4);
                if q > f + 4 && q < line.len() && quoteish(line[q]) {
                    let e = stmt_end(line);
                    if e - 1 > q && e > 0 && quoteish(line[e - 1]) {
                        Some(line.subrange(q + 1, e - 1))
                    } else {
                        None
                    }
                } else {
                    None
                }
            } else {
                None
            },
        }
    } else {
        None
    }
}

/// The module path of the first `import` occurrence that completes the
/// `import ... from '...'` shape, trying each occurrence in turn.
pub open spec fn spec_import_from_rec(line: Seq<char>, i: int) -> Option<Seq<char>>
    decreases line.len() + 1 - i,
{
    if i < 0 {
        None
    } else {
        match find_from(line, "import"@, i) {
            None => None,
            Some(im) => match import_from_at(line, im) {
                Some(p) => Some(p),
                None => if im + 1 > i && im <= line.len() {
                    spec_import_from_rec(line, im + 1)
                } else {
                    None
                },
            },
        }
    }
}

pub open spec fn spec_import_from(line: Seq<char>) -> Option<Seq<char>> {
    spec_import_from_rec(line, 0)
}

fn import_from_path(line: &str) -> (r: Option<String>)
    ensures
        match r {
            Some(p) => spec_import_from(line@) == Some(p@),
            None => spec_import_from(line@) is None,
        },
{
    let n = line.unicode_len();
    let mut pos: usize = 0;
    loop
        invariant
            0 <= pos,
            n == line@.len(),
            spec_import_from(line@) == spec_import_from_rec(line@, pos as int),
        decreases n + 1 - pos,
    {
        proof {
            reveal_strlit("import");
            reveal_strlit("from");
        }
        let im = match find_sub_from(line, "import", pos) {
            Some(i) => i,
            None => {
                return None;
            },
        };
        match import_from_at_check(line, im) {
            Some(p) => {
                return Some(p);
            },
            None => {},
        }
        pos = im + 1;
    }
}

fn import_from_at_check(line: &str, im: usize) -> (r: Option<String>)
    requires
        im + 6 <= line@.len(),
    ensures
        match r {
            Some(p) => import_from_at(line@, im as int) == Some(p@),
            None => import_from_at(line@, im as int) is None,
        },
{
    proof {
        reveal_strlit("from");
    }
    let n = line.unicode_len();
    if !(im + 6 < n && crate::text::is_space_char(line.get_char(im + 6))) {
        return None;
    }
    let f = match rfind_sub_all(line, "from") {
        Some(i) => i,
        None => {
            return None;
        },
    };
    if !(f >= 8 && f - 8 >= im && crate::text::is_space_char(line.get_char(f - 1))) {
        return None;
    }
    let q = skip_ws_idx(line, f + 4);
    if !(q > f + 4 && q < n && is_quote(line.get_char(q))) {
        return None;
    }
    let e = stmt_end_idx(line);
    if e >= 1 && e - 1 > q && is_quote(line.get_char(e - 1)) {
        Some(line.substring_char(q + 1, e - 1).to_owned())
    } else {
        None
    }
}

/// The dynamic `import('...')` shape anchored at the `import` occurrence
/// `im`: a quote right after the opening parenthesis, closing at the last
/// quote that a closing parenthesis follows.
pub open spec fn import_dynamic_at(line: Seq<char>, im: int) -> Option<Seq<char>> {
    match first_quote(line, im + 6) {
        None => None,
        Some(q1) => if q1 >= im + 7 && line[q1 - 1] == '(' {
            match rlast_quote_paren(line, line.len() - 1) {
                None => None,
                Some(q2) => if q2 >= q1 + 1 {
                    Some(line.subrange(q1 + 1, q2))
                } else {
                    None
                },
            }
        } else {
            None
        },
    }
}

/// The module path of the first `import` occurrence that completes the
/// dynamic shape, trying each occurrence in turn.
pub open spec fn spec_import_dynamic_rec(line: Seq<char>, i: int) -> Option<Seq<char>>
    decreases line.len() + 1 - i,
{
    if i < 0 {
        None
    } else {
        match find_from(line, "import"@, i) {
            None => None,
            Some(im) => match import_dynamic_at(line, im) {
                Some(p) => Some(p),
                None => if im + 1 > i && im <= line.len() {
                    spec_import_dynamic_rec(line, im + 1)
                } else {
                    None
                },
            },
        }
    }
}

pub open spec fn spec_import_dynamic(line: Seq<char>) -> Option<Seq<char>> {
    spec_import_dynamic_rec(line, 0)
}

fn import_dynamic_path(line: &str) -> (r: Option<String>)
    ensures
        match r {
            Some(p) => spec_import_dynamic(line@) == Some(p@),
            None => spec_import_dynamic(line@) is None,
        },
{
    let n = line.unicode_len();
    let mut pos: usize = 0;
    loop
        invariant
            0 <= pos,
            n == line@.len(),
            spec_import_dynamic(line@) == spec_import_dynamic_rec(line@, pos as int),
        decreases n + 1 - pos,
    {
        proof {
            reveal_strlit("import");
        }
        let im = match find_sub_from(line, "import", pos) {
            Some(i) => i,
            None => {
                return None;
            },
        };
        match import_dynamic_at_check(line, im) {
            Some(p) => {
                return Some(p);
            },
            None => {},
        }
        pos = im + 1;
    }
}

fn import_dynamic_at_check(line: &str, im: usize) -> (r: Option<String>)
    requires
        im + 6 <= line@.len(),
    ensures
        match r {
            Some(p) => import_dynamic_at(line@, im as int) == Some(p@),
            None => import_dynamic_at(line@, im as int) is None,
        },
{
    let n = line.unicode_len();
    let q1 = match first_quote_idx(line, im + 6) {
        Some(i) => i,
        None => {
            return None;
        },
    };
    if !(q1 >= im + 7 && line.get_char(q1 - 1) == '(') {
        return None;
    }
    let q2 = match rlast_quote_paren_idx(line) {
        Some(i) => i,
        None => {
            return None;
        },
    };
    if q2 >= q1 + 1 {
        Some(line.substring_char(q1 + 1, q2).to_owned())
    } else {
        None
    }
}

/// The `require('...')` shape anchored at the `require` occurrence `rq`:
/// an opening parenthesis after optional whitespace, the first quote after
/// it, and the last quote that a closing parenthesis follows.
pub open spec fn require_at(line: Seq<char>, rq: int) -> Option<Seq<char>> {
    let k = ws_run_end(line, rq + 7);
    if k < line.len() && line[k] == '(' {
        match first_quote(line, k + 1) {
            None => None,
            Some(q1) => match rlast_quote_paren(line, line.len() - 1) {
                None => None,
                Some(q2) => if q2 >= q1 + 1 {
                    Some(line.subrange(q1 + 1, q2))
                } else {
                    None
                },
            },
        }
    } else {
        None
    }
}

/// The module path of the last `require` occurrence that completes the
/// shape, trying the occurrences from the last one down.
pub open spec fn spec_require_rec(line: Seq<char>, i: int) -> Option<Seq<char>>
    decreases i + 1,
{
    if i < 0 {
        None
    } else {
        match crate::text::rfind_upto(line, "require"@, i) {
            None => None,
            Some(rq) => match require_at(line, rq) {
                Some(p) => Some(p),
                None => if 0 <= rq && rq - 1 < i {
                    spec_require_rec(line, rq - 1)
                } else {
                    None
                },
            },
        }
    }
}

pub open spec fn spec_require(line: Seq<char>) -> Option<Seq<char>> {
    spec_require_rec(line, line.len() - 1)
}

fn require_path(line: &str) -> (r: Option<String>)
    ensures
        match r {
            Some(p) => spec_require(line@) == Some(p@),
            None => spec_require(line@) is None,
        },
{
    let n = line.unicode_len();
    if n == 0 {
        proof {
            assert(crate::text::rfind_upto(line@, "require"@, -1) is None);
        }
        return None;
    }
    let mut upto: usize = n - 1;
    loop
        invariant
            0 <= upto <= n - 1,
            n == line@.len(),
            n >= 1,
            spec_require(line@) == spec_require_rec(line@, upto as int),
        decreases upto,
    {
        proof {
            reveal_strlit("require");
        }
        let rq = match rfind_sub_upto(line, "require", upto) {
            Some(i) => i,
            None => {
                return None;
            },
        };
        match require_at_check(line, rq) {
            Some(p) => {
                return Some(p);
            },
            None => {},
        }
        if rq == 0 {
            proof {
                assert(spec_require_rec(line@, -1) is None);
            }
            return None;
        }
        upto = rq - 1;
    }
}

fn require_at_check(line: &str, rq: usize) -> (r: Option<String>)
    requires
        rq + 7 <= line@.len(),
    ensures
        match r {
            Some(p) => require_at(line@, rq as int) == Some(p@),
            None => require_at(line@, rq as int) is None,
        },
{
    let n = line.unicode_len();
    let k = skip_ws_idx(line, rq + 7);
    if !(k < n && line.get_char(k) == '(') {
        return None;
    }
    let q1 = match first_quote_idx(line, k + 1) {
        Some(i) => i,
        None => {
            return None;
        },
    };
    let q2 = match rlast_quote_paren_idx(line) {
        Some(i) => i,
        None => {
            return None;
        },
    };
    if q2 >= q1 + 1 {
        Some(line.substring_char(q1 + 1, q2).to_owned())
    } else {
        None
    }
}

/// The bare `import '...'` shape anchored at the `import` occurrence `im`:
/// whitespace, a quote, and the closing quote at the end of the statement.
pub open spec fn import_bare_at(line: Seq<char>, im: int) -> Option<Seq<char>> {
    if im + 6 < line.len() && is_space(line[im + 6]) {
        let q = ws_run_end(line, im + 6);
        if q < line.len() && quoteish(line[q]) {
            let e = stmt_end(line);
            if e - 1 > q && e > 0 && quoteish(line[e - 1]) {
                Some(line.subrange(q + 1, e - 1))
            } else {
                None
            }
        } else {
            None
        }
    } else {
        None
    }
}

/// The module path of the first `import` occurrence that completes the
/// bare shape, trying each occurrence in turn.
pub open spec fn spec_import_bare_rec(line: Seq<char>, i: int) -> Option<Seq<char>>
    decreases line.len() + 1 - i,
{
    if i < 0 {
        None
    } else {
        match find_from(line, "import"@, i) {
            None => None,
            Some(im) => match import_bare_at(line, im) {
                Some(p) => Some(p),
                None => if im + 1 > i && im <= line.len() {
                    spec_import_bare_rec(line, im + 1)
                } else {
                    None
                },
            },
        }
    }
}

pub open spec fn spec_import_bare(line: Seq<char>) -> Option<Seq<char>> {
    spec_import_bare_rec(line, 0)
}

fn import_bare_path(line: &str) -> (r: Option<String>)
    ensures
        match r {
            Some(p) => spec_import_bare(line@) == Some(p@),
            None => spec_import_bare(line@) is None,
        },
{
    let n = line.unicode_len();
    let mut pos: usize = 0;
    loop
        invariant
            0 <= pos,
            n == line@.len(),
            spec_import_bare(line@) == spec_import_bare_rec(line@, pos as int),
        decreases n + 1 - pos,
    {
        proof {
            reveal_strlit("import");
        }
        let im = match find_sub_from(line, "import", pos) {
            Some(i) => i,
            None => {
                return None;
            },
        };
        match import_bare_at_check(line, im) {
            Some(p) => {
                return Some(p);
            },
            None => {},
        }
        pos = im + 1;
    }
}

fn import_bare_at_check(line: &str, im: usize) -> (r: Option<String>)
    requires
        im + 6 <= line@.len(),
    ensures
        match r {
            Some(p) => import_bare_at(line@, im as int) == Some(p@),
            None => import_bare_at(line@, im as int) is None,
        },
{
    let n = line.unicode_len();
    if !(im + 6 < n && crate::text::is_space_char(line.get_char(im + 6))) {
        return None;
    }
    let q = skip_ws_idx(line, im + 6);
    if !(q < n && is_quote(line.get_char(q))) {
        return None;
    }
    let e = stmt_end_idx(line);
    if e >= 1 && e - 1 > q && is_quote(line.get_char(e - 1)) {
        Some(line.substring_char(q + 1, e - 1).to_owned())
    } else {
        None
    }
}

/// The `import(/* ... */ '...')` shape anchored at the `import` occurrence
/// `im`: an opening parenthesis, a comment with no quote before it, the
/// quoted path, ending at the last quote on the line.
pub open spec fn import_comment_at(line: Seq<char>, im: int) -> Option<Seq<char>> {
    let k = ws_run_end(line, im + 6);
    if k < line.len() && line[k] == '(' {
        match find_from(line, "/*"@, k + 1) {
            None => None,
            Some(c1) => if (match first_quote(line, k + 1) {
                Some(fq) => fq >= c1,
                None => true,
            }) {
                match rfind_all(line, "*/"@) {
                    None => None,
                    Some(c2) => if c2 >= c1 + 2 {
                        let q = ws_run_end(line, c2 + 2);
                        if q < line.len() && quoteish(line[q]) {
                            match rlast_quote(line, line.len() - 1) {
                                None => None,
                                Some(e) => if e > q {
                                    Some(line.subrange(q + 1, e))
                                } else {
                                    None
                                },
                            }
                        } else {
                            None
                        }
                    } else {
                        None
                    },
                }
            } else {
                None
            },
        }
    } else {
        None
    }
}

/// The module path of the first `import` occurrence that completes the
/// comment shape, trying each occurrence in turn.
pub open spec fn spec_import_comment_rec(line: Seq<char>, i: int) -> Option<Seq<char>>
    decreases line.len() + 1 - i,
{
    if i < 0 {
        None
    } else {
        match find_from(line, "import"@, i) {
            None => None,
            Some(im) => match import_comment_at(line, im) {
                Some(p) => Some(p),
                None => if im + 1 > i && im <= line.len() {
                    spec_import_comment_rec(line, im + 1)
                } else {
                    None
                },
            },
        }
    }
}

pub open spec fn spec_import_comment(line: Seq<char>) -> Option<Seq<char>> {
    spec_import_comment_rec(line, 0)
}

fn import_comment_path(line: &str) -> (r: Option<String>)
    ensures
        match r {
            Some(p) => spec_import_comment(line@) == Some(p@),
            None => spec_import_comment(line@) is None,
        },
{
    let n = line.unicode_len();
    let mut pos: usize = 0;
    loop
        invariant
            0 <= pos,
            n == line@.len(),
            spec_import_comment(line@) == spec_import_comment_rec(line@, pos as int),
        decreases n + 1 - pos,
    {
        proof {
            reveal_strlit("import");
        }
        let im = match find_sub_from(line, "import", pos) {
            Some(i) => i,
            None => {
                return None;
            },
        };
        match import_comment_at_check(line, im) {
            Some(p) => {
                return Some(p);
            },
            None => {},
        }
        pos = im + 1;
    }
}

fn import_comment_at_check(line: &str, im: usize) -> (r: Option<String>)
    requires
        im + 6 <= line@.len(),
    ensures
        match r {
            Some(p) => import_comment_at(line@, im as int) == Some(p@),
            None => import_comment_at(line@, im as int) is None,
        },
{
    proof {
        reveal_strlit("/*");
        reveal_strlit("*/");
    }
    let n = line.unicode_len();
    let k = skip_ws_idx(line, im + 6);
    if !(k < n && line.get_char(k) == '(') {
        return None;
    }
    let c1 = match find_sub_from(line, "/*", k + 1) {
        Some(i) => i,
        None => {
            return None;
        },
    };
    match first_quote_idx(line, k + 1) {
        Some(fq) => {
            if fq < c1 {
                return None;
            }
        },
        None => {},
    }
    let c2 = match rfind_sub_all(line, "*/") {
        Some(i) => i,
        None => {
            return None;
        },
    };
    if c2 < c1 + 2 {
        return None;
    }
    let q = skip_ws_idx(line, c2 + 2);
    if !(q < n && is_quote(line.get_char(q))) {
        return None;
    }
    let e = match rlast_quote_idx(line) {
        Some(i) => i,
        None => {
            return None;
        },
    };
    if e > q {
        Some(line.substring_char(q + 1, e).to_owned())
    } else {
        None
    }
}

/// End of the run of identifier characters starting at `j`.
pub open spec fn word_run_end(line: Seq<char>, j: int) -> int
    decreases line.len() - j,
{
    if 0 <= j < line.len() && is_word(line[j]) {
        word_run_end(line, j + 1)
    } else {
        j
    }
}

pub(crate) fn word_run_end_idx(line: &str, from: usize) -> (r: usize)
    requires
        from <= line@.len(),
    ensures
        r == word_run_end(line@, from as int),
        from <= r <= line@.len(),
{
    let n = line.unicode_len();
    let mut i: usize = from;
    while i < n && is_word_char(line.get_char(i))
        invariant
            from <= i <= n,
            n == line@.len(),
            word_run_end(line@, from as int) == word_run_end(line@, i as int),
        decreases n - i,
    {
        i = i + 1;
    }
    i
}

/// Index of the last whitespace-run character scanning down from `j`.
pub open spec fn skip_ws_back(line: Seq<char>, j: int) -> int
    decreases j + 1,
{
    if j < 0 || j >= line.len() || !is_space(line[j]) {
        j
    } else {
        skip_ws_back(line, j - 1)
    }
}

/// Index below the run of identifier characters ending at `j`.
pub open spec fn skip_word_back(line: Seq<char>, j: int) -> int
    decreases j + 1,
{
    if j < 0 || j >= line.len() || !is_word(line[j]) {
        j
    } else {
        skip_word_back(line, j - 1)
    }
}

/// Start of the whitespace run that ends just before `e`.
fn ws_start_before(line: &str, e: usize) -> (s: usize)
    requires
        e <= line@.len(),
    ensures
        s == skip_ws_back(line@, e - 1) + 1,
        s <= e,
{
    let mut i: usize = e;
    while i > 0 && is_space_char_at(line, i - 1)
        invariant
            0 <= i <= e <= line@.len(),
            skip_ws_back(line@, e - 1) == skip_ws_back(line@, i - 1),
        decreases i,
    {
        i = i - 1;
    }
    i
}

/// Start of the identifier run that ends just before `e`.
fn word_start_before(line: &str, e: usize) -> (s: usize)
    requires
        e <= line@.len(),
    ensures
        s == skip_word_back(line@, e - 1) + 1,
        s <= e,
{
    let mut i: usize = e;
    while i > 0 && is_word_char_at(line, i - 1)
        invariant
            0 <= i <= e <= line@.len(),
            skip_word_back(line@, e - 1) == skip_word_back(line@, i - 1),
        decreases i,
    {
        i = i - 1;
    }
    i
}

fn is_space_char_at(line: &str, i: usize) -> (r: bool)
    requires
        i < line@.len(),
    ensures
        r == is_space(line@[i as int]),
{
    crate::text::is_space_char(line.get_char(i))
}

fn is_word_char_at(line: &str, i: usize) -> (r: bool)
    requires
        i < line@.len(),
    ensures
        r == is_word(line@[i as int]),
{
    is_word_char(line.get_char(i))
}

/// A line that opens an embedded script block: its trimmed text begins
/// with `<script` and ends with `>`.
pub open spec fn script_start_line(line: Seq<char>) -> bool {
    let t = trim_view(line);
    t.len() >= 8 && occurs_at(t, "<script"@, 0) && t[t.len() - 1] == '>'
}

pub fn script_start_check(line: &str) -> (r: bool)
    ensures
        r == script_start_line(line@),
{
    let t = trim_str(line);
    let n = t.unicode_len();
    n >= 8 && starts_with(t, "<script") && t.get_char(n - 1) == '>'
}

/// A line that closes an embedded script block: its trimmed text is
/// exactly `</script>`.
pub open spec fn script_end_line(line: Seq<char>) -> bool {
    trim_view(line) == "</script>"@
}

fn script_end_check(line: &str) -> (r: bool)
    ensures
        r == script_end_line(line@),
{
    str_eq(trim_str(line), "</script>")
}

/// Number of occurrences of character `c` at positions at or after `i`.
pub open spec fn count_char_from(line: Seq<char>, c: char, i: int) -> nat
    decreases line.len() - i,
{
    if i < 0 || i >= line.len() {
        0
    } else {
        (if line[i] == c {
            1nat
        } else {
            0nat
        }) + count_char_from(line, c, i + 1)
    }
}

fn count_chars(line: &str, c: char) -> (r: usize)
    ensures
        r == count_char_from(line@, c, 0),
        r <= line@.len(),
{
    let n = line.unicode_len();
    let mut count: usize = 0;
    let mut i: usize = 0;
    while i < n
        invariant
            0 <= i <= n,
            n == line@.len(),
            count <= i,
            count + count_char_from(line@, c, i as int) == count_char_from(line@, c, 0),
        decreases n - i,
    {
        if line.get_char(i) == c {
            count = count + 1;
        }
        i = i + 1;
    }
    count
}

/// The `( )` shape after a section keyword: optional whitespace around an
/// empty pair of parentheses; yields the position after the `)`.
pub open spec fn key_alt_paren(line: Seq<char>, s1: int) -> Option<int> {
    if 0 <= s1 < line.len() && line[s1] == '(' {
        let a2 = ws_run_end(line, s1 + 1);
        if a2 < line.len() && line[a2] == ')' {
            Some(a2 + 1)
        } else {
            None
        }
    } else {
        None
    }
}

/// The `: function ( )` shape with an optional leading colon.
pub open spec fn key_alt_function(line: Seq<char>, s1: int) -> Option<int> {
    if s1 < 0 {
        None
    } else {
        let c0 = if s1 < line.len() && line[s1] == ':' {
            s1 + 1
        } else {
            s1
        };
        let c1 = ws_run_end(line, c0);
        if c1 + 8 <= line.len() && occurs_at(line, "function"@, c1) {
            let c2 = ws_run_end(line, c1 + 8);
            if c2 < line.len() && line[c2] == '(' {
                let c3 = ws_run_end(line, c2 + 1);
                if c3 < line.len() && line[c3] == ')' {
                    Some(c3 + 1)
                } else {
                    None
                }
            } else {
                None
            }
        } else {
            None
        }
    }
}

/// An opening brace follows at `after`, past optional whitespace.
pub open spec fn brace_follows(line: Seq<char>, after: int) -> bool {
    let f = ws_run_end(line, after);
    0 <= f < line.len() && line[f] == '{'
}

/// A section header begins at `k`: a keyword run, then `( )`, a colon, or
/// a `function ( )` form, then an opening brace.
pub open spec fn key_section_at(line: Seq<char>, k: int) -> bool {
    let we = word_run_end(line, k);
    let s1 = ws_run_end(line, we);
    ||| (key_alt_paren(line, s1) matches Some(a) && brace_follows(line, a))
    ||| (0 <= s1 < line.len() && line[s1] == ':' && brace_follows(line, s1 + 1))
    ||| (key_alt_function(line, s1) matches Some(a) && brace_follows(line, a))
}

/// The keyword of the first section header on the line, if any.
pub open spec fn key_section_keyword(line: Seq<char>, k: int) -> Option<Seq<char>>
    decreases line.len() - k,
{
    if k < 0 || k >= line.len() {
        None
    } else if key_section_at(line, k) {
        Some(line.subrange(k, word_run_end(line, k)))
    } else {
        key_section_keyword(line, k + 1)
    }
}

fn brace_follows_check(line: &str, after: usize) -> (r: bool)
    requires
        after <= line@.len(),
    ensures
        r == brace_follows(line@, after as int),
{
    let n = line.unicode_len();
    let f = skip_ws_idx(line, after);
    f < n && line.get_char(f) == '{'
}

fn key_section_at_check(line: &str, k: usize) -> (r: bool)
    requires
        k < line@.len(),
    ensures
        r == key_section_at(line@, k as int),
{
    proof {
        reveal_strlit("function");
    }
    let n = line.unicode_len();
    let we = word_run_end_idx(line, k);
    let s1 = skip_ws_idx(line, we);

    // keyword ( ) {
    if s1 < n && line.get_char(s1) == '(' {
        let a2 = skip_ws_idx(line, s1 + 1);
        if a2 < n && line.get_char(a2) == ')' {
            if brace_follows_check(line, a2 + 1) {
                return true;
            }
        }
    }
    // keyword : {
    if s1 < n && line.get_char(s1) == ':' {
        if brace_follows_check(line, s1 + 1) {
            return true;
        }
    }
    // keyword : function ( ) {
    let c0 = if s1 < n && line.get_char(s1) == ':' {
        s1 + 1
    } else {
        s1
    };
    let c1 = skip_ws_idx(line, c0);
    if n >= 8 && c1 <= n - 8 && crate::text::occurs_at_check(line, "function", c1) {
        let c2 = skip_ws_idx(line, c1 + 8);
        if c2 < n && line.get_char(c2) == '(' {
            let c3 = skip_ws_idx(line, c2 + 1);
            if c3 < n && line.get_char(c3) == ')' {
                if brace_follows_check(line, c3 + 1) {
                    return true;
                }
            }
        }
    }
    false
}

/// The keyword of the first section header on the line.
fn key_section_capture(line: &str) -> (r: Option<String>)
    ensures
        match r {
            Some(kw) => key_section_keyword(line@, 0) == Some(kw@),
            None => key_section_keyword(line@, 0) is None,
        },
{
    let n = line.unicode_len();
    let mut k: usize = 0;
    while k < n
        invariant
            0 <= k <= n,
            n == line@.len(),
            key_section_keyword(line@, 0) == key_section_keyword(line@, k as int),
        decreases n - k,
    {
        if key_section_at_check(line, k) {
            let we = word_run_end_idx(line, k);
            return Some(line.substring_char(k, we).to_owned());
        }
        k = k + 1;
    }
    None
}

/// The fixed vocabulary of option-section keywords.
pub open spec fn is_vue_attr(w: Seq<char>) -> bool {
    ||| w == "props"@
    ||| w == "computed"@
    ||| w == "methods"@
    ||| w == "watch"@
    ||| w == "beforeCreate"@
    ||| w == "created"@
    ||| w == "beforeMount"@
    ||| w == "mounted"@
    ||| w == "beforeUpdate"@
    ||| w == "updated"@
    ||| w == "activated"@
    ||| w == "deactivated"@
    ||| w == "beforeDestroy"@
    ||| w == "destroyed"@
    ||| w == "directives"@
    ||| w == "filters"@
    ||| w == "components"@
    ||| w == "data"@
}

fn is_vue_attr_check(w: &str) -> (r: bool)
    ensures
        r == is_vue_attr(w@),
{
    str_eq(w, "props") || str_eq(w, "computed") || str_eq(w, "methods") || str_eq(w, "watch")
        || str_eq(w, "beforeCreate") || str_eq(w, "created") || str_eq(w, "beforeMount") || str_eq(
        w,
        "mounted",
    ) || str_eq(w, "beforeUpdate") || str_eq(w, "updated") || str_eq(w, "activated") || str_eq(
        w,
        "deactivated",
    ) || str_eq(w, "beforeDestroy") || str_eq(w, "destroyed") || str_eq(w, "directives") || str_eq(
        w,
        "filters",
    ) || str_eq(w, "components") || str_eq(w, "data")
}

/// First colon that an identifier character precedes and at least one
/// character follows.
pub open spec fn first_colon_word(line: Seq<char>, i: int) -> Option<int>
    decreases line.len() - i,
{
    if i < 0 || i >= line.len() {
        None
    } else if line[i] == ':' && i >= 1 && is_word(line[i - 1]) && i + 1 < line.len() {
        Some(i)
    } else {
        first_colon_word(line, i + 1)
    }
}

/// The property name on a `name: value` line inside the data section.
pub open spec fn data_prop_name(line: Seq<char>) -> Option<Seq<char>> {
    match first_colon_word(line, 0) {
        None => None,
        Some(j) => Some(line.subrange(skip_word_back(line, j - 1) + 1, j)),
    }
}

fn data_prop_capture(line: &str) -> (r: Option<String>)
    ensures
        match r {
            Some(p) => data_prop_name(line@) == Some(p@),
            None => data_prop_name(line@) is None,
        },
{
    let n = line.unicode_len();
    let mut i: usize = 0;
    while i < n
        invariant
            0 <= i <= n,
            n == line@.len(),
            first_colon_word(line@, 0) == first_colon_word(line@, i as int),
        decreases n - i,
    {
        if line.get_char(i) == ':' && i >= 1 && is_word_char_at(line, i - 1) && i + 1 < n {
            let w = word_start_before(line, i);
            return Some(line.substring_char(w, i).to_owned());
        }
        i = i + 1;
    }
    None
}

/// First colon or opening parenthesis on the line.
pub open spec fn first_colon_paren(line: Seq<char>, i: int) -> Option<int>
    decreases line.len() - i,
{
    if i < 0 || i >= line.len() {
        None
    } else if line[i] == ':' || line[i] == '(' {
        Some(i)
    } else {
        first_colon_paren(line, i + 1)
    }
}

/// The member name on a `name: ...` or `name( ... )` line inside a named
/// section: the identifier run before the first colon or parenthesis, with
/// a literal `async` prefix stripped.
pub open spec fn method_prop_name(line: Seq<char>) -> Option<Seq<char>> {
    match first_colon_paren(line, 0) {
        None => None,
        Some(j) => {
            let k = skip_ws_back(line, j - 1);
            let run = line.subrange(skip_word_back(line, k) + 1, k + 1);
            if run.len() >= 5 && run[0] == 'a' && run[1] == 's' && run[2] == 'y' && run[3] == 'n'
                && run[4] == 'c' {
                Some(run.subrange(5, run.len() as int))
            } else {
                Some(run)
            }
        },
    }
}

fn method_prop_capture(line: &str) -> (r: Option<String>)
    ensures
        match r {
            Some(p) => method_prop_name(line@) == Some(p@),
            None => method_prop_name(line@) is None,
        },
{
    let n = line.unicode_len();
    let mut i: usize = 0;
    while i < n
        invariant
            0 <= i <= n,
            n == line@.len(),
            first_colon_paren(line@, 0) == first_colon_paren(line@, i as int),
        decreases n - i,
    {
        let c = line.get_char(i);
        if c == ':' || c == '(' {
            let k = ws_start_before(line, i);
            let w = word_start_before(line, k);
            let run = line.substring_char(w, k);
            let rn = run.unicode_len();
            if rn >= 5 && run.get_char(0) == 'a' && run.get_char(1) == 's' && run.get_char(2)
                == 'y' && run.get_char(3) == 'n' && run.get_char(4) == 'c' {
                return Some(run.substring_char(5, rn).to_owned());
            }
            proof {
                assert(run@.subrange(0, rn as int) =~= run@);
            }
            return Some(run.substring_char(0, rn).to_owned());
        }
        i = i + 1;
    }
    None
}

/// A `return {` occurrence: the keyword, optional whitespace, and an
/// opening brace.
pub open spec fn return_brace_at(line: Seq<char>, i: int) -> bool {
    occurs_at(line, "return"@, i) && {
        let k = ws_run_end(line, i + 6);
        k < line.len() && line[k] == '{'
    }
}

/// The line enters the object literal a data function returns.
pub open spec fn has_data_return(line: Seq<char>) -> bool {
    exists|i: int| return_brace_at(line, i)
}

fn data_return_check(line: &str) -> (r: bool)
    ensures
        r == has_data_return(line@),
{
    proof {
        reveal_strlit("return");
    }
    let n = line.unicode_len();
    let mut pos: usize = 0;
    loop
        invariant
            0 <= pos,
            n == line@.len(),
            forall|j: int| j < pos ==> !return_brace_at(line@, j),
        decreases n + 1 - pos,
    {
        proof {
            reveal_strlit("return");
        }
        match find_sub_from(line, "return", pos) {
            None => {
                proof {
                    assert forall|j: int| !return_brace_at(line@, j) by {
                        if j >= pos {
                            crate::text::lemma_find_from_none(line@, "return"@, pos as int, j);
                        }
                    }
                }
                return false;
            },
            Some(i) => {
                proof {
                    assert forall|j: int| j < i implies !return_brace_at(line@, j) by {
                        if pos <= j {
                            crate::text::lemma_find_from_some(line@, "return"@, pos as int, j);
                        }
                    }
                }
                let k = skip_ws_idx(line, i + 6);
                if k < n && line.get_char(k) == '{' {
                    proof {
                        crate::text::lemma_find_from_occurs(line@, "return"@, pos as int);
                        assert(return_brace_at(line@, i as int));
                    }
                    return true;
                }
                proof {
                    assert(!return_brace_at(line@, i as int));
                }
                pos = i + 1;
            },
        }
    }
}

/// `s` with every dash removed.
pub open spec fn nodash(s: Seq<char>) -> Seq<char>
    decreases s.len(),
{
    if s.len() == 0 {
        Seq::<char>::empty()
    } else if s[0] == '-' {
        nodash(s.subrange(1, s.len() as int))
    } else {
        seq![s[0]] + nodash(s.subrange(1, s.len() as int))
    }
}

fn remove_dashes(s: &str) -> (r: String)
    ensures
        r@ == nodash(s@),
{
    let n = s.unicode_len();
    let mut out = String::new();
    let mut i: usize = 0;
    proof {
        assert(s@.subrange(0, n as int) =~= s@);
    }
    while i < n
        invariant
            0 <= i <= n,
            n == s@.len(),
            out@ + nodash(s@.subrange(i as int, n as int)) == nodash(s@),
        decreases n - i,
    {
        let ghost suf = s@.subrange(i as int, n as int);
        let c = s.get_char(i);
        proof {
            assert(suf[0] == s@[i as int]);
            assert(suf.subrange(1, suf.len() as int) =~= s@.subrange(i + 1, n as int));
        }
        if c != '-' {
            let ghost before = out@;
            push_char(&mut out, c);
            proof {
                assert(out@ + nodash(s@.subrange(i + 1, n as int)) =~= before + (seq![suf[0]]
                    + nodash(s@.subrange(i + 1, n as int))));
            }
        }
        i = i + 1;
    }
    proof {
        assert(nodash(s@.subrange(n as int, n as int)) =~= Seq::<char>::empty());
        assert(out@ =~= out@ + Seq::<char>::empty());
    }
    out
}

/// An import or require line whose case-folded, dash-free text contains the
/// case-folded, dash-free component name.
pub open spec fn comp_import_line(line: Seq<char>, select: Seq<char>) -> bool {
    &&& contains_sub(nodash(lower_of(line)), nodash(lower_of(select)))
    &&& (occurs_at(trim_view(line), "import"@, 0) || occurs_at(trim_view(line), "require"@, 0))
}

fn comp_import_check(line: &str, select: &str) -> (r: bool)
    ensures
        r == comp_import_line(line@, select@),
{
    let t = trim_str(line);
    if !(starts_with(t, "import") || starts_with(t, "require")) {
        return false;
    }
    let folded_line = remove_dashes(lowercase_str(line).as_str());
    let tag = remove_dashes(lowercase_str(select).as_str());
    match find_sub(folded_line.as_str(), tag.as_str()) {
        Some(_) => true,
        None => false,
    }
}

/// The module path an import or require line names: the five line shapes
/// are tried in a fixed order and the first non-empty path wins.
pub open spec fn spec_definition_position(line: Seq<char>) -> Option<Seq<char>> {
    if spec_import_from(line) matches Some(p) && p.len() > 0 {
        spec_import_from(line)
    } else if spec_import_dynamic(line) matches Some(p) && p.len() > 0 {
        spec_import_dynamic(line)
    } else if spec_require(line) matches Some(p) && p.len() > 0 {
        spec_require(line)
    } else if spec_import_bare(line) matches Some(p) && p.len() > 0 {
        spec_import_bare(line)
    } else if spec_import_comment(line) matches Some(p) && p.len() > 0 {
        spec_import_comment(line)
    } else {
        None
    }
}

/// Extract the module path from an import/require statement.
pub fn get_definition_position(line_text: &str) -> (r: Option<String>)
    ensures
        match r {
            Some(p) => spec_definition_position(line_text@) == Some(p@) && p@.len() > 0,
            None => spec_definition_position(line_text@) is None,
        },
{
    if let Some(p) = import_from_path(line_text) {
        if p.as_str().unicode_len() > 0 {
            return Some(p);
        }
    }
    if let Some(p) = import_dynamic_path(line_text) {
        if p.as_str().unicode_len() > 0 {
            return Some(p);
        }
    }
    if let Some(p) = require_path(line_text) {
        if p.as_str().unicode_len() > 0 {
            return Some(p);
        }
    }
    if let Some(p) = import_bare_path(line_text) {
        if p.as_str().unicode_len() > 0 {
            return Some(p);
        }
    }
    if let Some(p) = import_comment_path(line_text) {
        if p.as_str().unicode_len() > 0 {
            return Some(p);
        }
    }
    None
}

/// A dot at `d` marks a file extension: some slash stands before it, or
/// the character immediately before it is not a dot.
pub open spec fn ext_dot_at(s: Seq<char>, d: int) -> bool {
    &&& 0 <= d < s.len()
    &&& s[d] == '.'
    &&& ((exists|k: int| 0 <= k < d && s[k] == '/') || (d >= 1 && s[d - 1] != '.'))
}

/// The path names a file extension: some dot marks one.
pub open spec fn has_extension(s: Seq<char>) -> bool {
    exists|d: int| ext_dot_at(s, d)
}

fn has_extension_check(s: &str) -> (r: bool)
    ensures
        r == has_extension(s@),
{
    let n = s.unicode_len();
    let mut seen_slash = false;
    let mut i: usize = 0;
    while i < n
        invariant
            0 <= i <= n,
            n == s@.len(),
            seen_slash == exists|k: int| 0 <= k < i && s@[k] == '/',
            forall|d: int| 0 <= d < i ==> !ext_dot_at(s@, d),
        decreases n - i,
    {
        let c = s.get_char(i);
        if c == '.' {
            if seen_slash || (i >= 1 && s.get_char(i - 1) != '.') {
                proof {
                    assert(ext_dot_at(s@, i as int));
                }
                return true;
            }
        }
        if c == '/' {
            proof {
                assert(s@[i as int] == '/');
            }
            seen_slash = true;
        }
        i = i + 1;
    }
    false
}

/// The parent directory of a path: everything before the last slash, the
/// root when the last slash leads, or empty when there is none.
pub open spec fn spec_parent(s: Seq<char>) -> Seq<char> {
    match crate::text::last_slash(s, s.len() - 1) {
        None => Seq::<char>::empty(),
        Some(p) => if p == 0 {
            seq!['/']
        } else {
            s.subrange(0, p)
        },
    }
}

/// Joining `b` onto directory `a`: `b` alone when it is absolute or `a` is
/// empty, with exactly one separator otherwise.
pub open spec fn spec_join(a: Seq<char>, b: Seq<char>) -> Seq<char> {
    if b.len() > 0 && b[0] == '/' {
        b
    } else if a.len() == 0 {
        b
    } else if a[a.len() - 1] == '/' {
        a + b
    } else {
        a + seq!['/'] + b
    }
}

fn parent_of(s: &str) -> (r: String)
    ensures
        r@ == spec_parent(s@),
{
    let n = s.unicode_len();
    match crate::text::last_slash_idx(s) {
        None => String::new(),
        Some(p) => {
            if p == 0 {
                let mut root = String::new();
                push_char(&mut root, '/');
                proof {
                    assert(root@ =~= seq!['/']);
                }
                root
            } else {
                s.substring_char(0, p).to_owned()
            }
        },
    }
}

fn join_path(a: &str, b: &str) -> (r: String)
    ensures
        r@ == spec_join(a@, b@),
{
    let an = a.unicode_len();
    let bn = b.unicode_len();
    if bn > 0 && b.get_char(0) == '/' {
        return b.to_owned();
    }
    if an == 0 {
        return b.to_owned();
    }
    let mut out = a.to_owned();
    if a.get_char(an - 1) != '/' {
        push_char(&mut out, '/');
        proof {
            assert(out@ =~= a@ + seq!['/']);
        }
    }
    out.append(b);
    proof {
        if a@[an - 1] != '/' {
            assert(out@ =~= a@ + seq!['/'] + b@);
        }
    }
    out
}

/// The base directory a relative import resolves against: the project root
/// for absolute imports, the importing document's directory otherwise.
pub open spec fn spec_resolve_base(
    base_path: Seq<char>,
    project_root: Seq<char>,
    is_absolute: bool,
) -> Seq<char> {
    if is_absolute {
        project_root
    } else {
        spec_parent(base_path)
    }
}

/// The candidate paths to probe for an import, in order: the joined path
/// itself when it already has an extension; otherwise, for each extension
/// of the fixed list, the path with that extension appended and the
/// `index.<ext>` file inside the path taken as a directory.
pub open spec fn spec_resolve_candidates(
    base_path: Seq<char>,
    file_path: Seq<char>,
    project_root: Seq<char>,
    is_absolute: bool,
) -> Seq<Seq<char>> {
    let base = spec_resolve_base(base_path, project_root, is_absolute);
    let temp = spec_join(base, file_path);
    if has_extension(file_path) {
        seq![temp]
    } else {
        seq![
            temp + ".vue"@,
            temp + "/index.vue"@,
            temp + ".js"@,
            temp + "/index.js"@,
            temp + ".ts"@,
            temp + "/index.ts"@,
            temp + ".css"@,
            temp + "/index.css"@,
            temp + ".scss"@,
            temp + "/index.scss"@,
            temp + ".less"@,
            temp + "/index.less"@,
        ]
    }
}

/// The file-system paths that import resolution probes, in probe order;
/// the caller tries each for existence and takes the first hit.
pub fn resolve_file_candidates(
    base_path: &str,
    file_path: &str,
    project_root: &str,
    is_absolute: bool,
) -> (r: Vec<String>)
    ensures
        r@.map_values(|p: String| p@) == spec_resolve_candidates(
            base_path@,
            file_path@,
            project_root@,
            is_absolute,
        ),
{
    let base = if is_absolute {
        project_root.to_owned()
    } else {
        parent_of(base_path)
    };
    let temp = join_path(base.as_str(), file_path);
    let mut out: Vec<String> = Vec::new();
    if has_extension_check(file_path) {
        out.push(temp);
        proof {
            assert(out@.map_values(|p: String| p@) =~= spec_resolve_candidates(
                base_path@,
                file_path@,
                project_root@,
                is_absolute,
            ));
        }
        return out;
    }
    // the twelve candidates, two per extension
    out.push(concat3(temp.as_str(), ".", "vue"));
    out.push(concat3(temp.as_str(), "/index.", "vue"));
    out.push(concat3(temp.as_str(), ".", "js"));
    out.push(concat3(temp.as_str(), "/index.", "js"));
    out.push(concat3(temp.as_str(), ".", "ts"));
    out.push(concat3(temp.as_str(), "/index.", "ts"));
    out.push(concat3(temp.as_str(), ".", "css"));
    out.push(concat3(temp.as_str(), "/index.", "css"));
    out.push(concat3(temp.as_str(), ".", "scss"));
    out.push(concat3(temp.as_str(), "/index.", "scss"));
    out.push(concat3(temp.as_str(), ".", "less"));
    out.push(concat3(temp.as_str(), "/index.", "less"));
    proof {
        reveal_strlit(".");
        reveal_strlit("/index.");
        reveal_strlit("vue");
        reveal_strlit(".vue");
        reveal_strlit("/index.vue");
        reveal_strlit("js");
        reveal_strlit(".js");
        reveal_strlit("/index.js");
        reveal_strlit("ts");
        reveal_strlit(".ts");
        reveal_strlit("/index.ts");
        reveal_strlit("css");
        reveal_strlit(".css");
        reveal_strlit("/index.css");
        reveal_strlit("scss");
        reveal_strlit(".scss");
        reveal_strlit("/index.scss");
        reveal_strlit("less");
        reveal_strlit(".less");
        reveal_strlit("/index.less");
        assert(out@.map_values(|p: String| p@) =~~= spec_resolve_candidates(
            base_path@,
            file_path@,
            project_root@,
            is_absolute,
        ));
    }
    out
}

fn concat3(a: &str, b: &str, c: &str) -> (r: String)
    ensures
        r@ == a@ + b@ + c@,
{
    let mut out = a.to_owned();
    out.append(b);
    out.append(c);
    proof {
        assert(out@ =~= a@ + b@ + c@);
    }
    out
}

/// Position just past the found identifier: one past the end of its first
/// occurrence on the line.
pub open spec fn hit_char(line: Seq<char>, select: Seq<char>) -> int {
    match find_from(line, select, 0) {
        Some(f) => f + select.len(),
        None => select.len() as int,
    }
}

/// The brace-depth state machine over the document lines.  Before the
/// script block: wait for the opening line.  Inside it: a section keyword
/// at depth zero selects the current section; in component-tag mode the
/// import lines are matched until any section keyword appears; in
/// identifier mode a data property is a hit at depth exactly two, a member
/// of any other section at depth exactly one, the depth grows by the brace
/// surplus of each line, and a `return {` line of the data section forces
/// the depth to two.
pub open spec fn find_in_rec(
    doc: Seq<Seq<char>>,
    select: Seq<char>,
    is_comp: bool,
    pos: int,
    begin: bool,
    bc: int,
    attr: Seq<char>,
) -> Option<(Seq<char>, int, int)>
    decreases doc.len() - pos,
{
    if pos < 0 || pos >= doc.len() {
        None
    } else {
        let line = doc[pos];
        if begin && script_end_line(line) {
            None
        } else if !begin {
            find_in_rec(doc, select, is_comp, pos + 1, script_start_line(line), bc, attr)
        } else {
            let attr2 = match key_section_keyword(line, 0) {
                Some(kw) => if is_vue_attr(kw) && bc == 0 {
                    kw
                } else {
                    attr
                },
                None => attr,
            };
            if is_comp {
                if attr2.len() > 0 {
                    None
                } else if comp_import_line(line, select) {
                    match spec_definition_position(line) {
                        Some(p) => Some((p, pos, 0)),
                        None => find_in_rec(doc, select, is_comp, pos + 1, begin, bc, attr2),
                    }
                } else {
                    find_in_rec(doc, select, is_comp, pos + 1, begin, bc, attr2)
                }
            } else {
                let l = count_char_from(line, '{', 0) as int;
                let r = count_char_from(line, '}', 0) as int;
                if attr2 == "data"@ && bc >= 2 {
                    if data_prop_name(line) == Some(select) && bc == 2 {
                        Some((Seq::<char>::empty(), pos, hit_char(line, select)))
                    } else {
                        let bc2 = if has_data_return(line) {
                            2int
                        } else {
                            bc + l - r
                        };
                        find_in_rec(doc, select, is_comp, pos + 1, begin, bc2, attr2)
                    }
                } else if attr2.len() > 0 {
                    if method_prop_name(line) == Some(select) && bc == 1 {
                        Some((Seq::<char>::empty(), pos, hit_char(line, select)))
                    } else {
                        let bc2 = if attr2 == "data"@ && has_data_return(line) {
                            2int
                        } else {
                            bc + l - r
                        };
                        find_in_rec(doc, select, is_comp, pos + 1, begin, bc2, attr2)
                    }
                } else {
                    let bc2 = if attr2 == "data"@ && has_data_return(line) {
                        2int
                    } else {
                        bc
                    };
                    find_in_rec(doc, select, is_comp, pos + 1, begin, bc2, attr2)
                }
            }
        }
    }
}

/// What in-file lookup yields: `start_text == "<"` selects component-tag
/// mode, anything else identifier mode.
pub open spec fn spec_find_in_file(
    doc: Seq<Seq<char>>,
    select: Seq<char>,
    start_text: Seq<char>,
) -> Option<(Seq<char>, int, int)> {
    find_in_rec(doc, select, start_text == "<"@, 0, false, 0, Seq::<char>::empty())
}

/// Find the definition of `select_text` inside the document itself: an
/// import line in component-tag mode, or a section member in identifier
/// mode.  An empty file path in the result means the same document.
pub fn find_in_file(lines: &Vec<String>, select_text: &str, start_text: &str) -> (r: Option<
    DefinitionLocation,
>)
    requires
        crate::assist::doc_fits(crate::assist::doc_view(lines)),
        select_text@.len() <= 0xFFFF_FFFF,
    ensures
        match spec_find_in_file(crate::assist::doc_view(lines), select_text@, start_text@) {
            Some(t) => r matches Some(loc) && loc.file_path@ == t.0 && loc.line == t.1
                && loc.character == t.2,
            None => r is None,
        },
{
    let ghost doc = crate::assist::doc_view(lines);
    let is_comp = str_eq(start_text, "<");
    let n = lines.len();
    let mut pos: usize = 0;
    let mut begin = false;
    let mut bc: i128 = 0;
    let mut attr = String::new();
    proof {
        crate::assist::lemma_chars_in_bound(doc, 0, doc.len() as int);
        assert(attr@ =~= Seq::<char>::empty());
    }
    while pos < n
        invariant
            0 <= pos <= n,
            n == doc.len(),
            doc == crate::assist::doc_view(lines),
            crate::assist::doc_fits(doc),
            select_text@.len() <= 0xFFFF_FFFF,
            -(crate::assist::chars_in(doc, 0, pos as int) as int) - 2 <= bc as int
                <= crate::assist::chars_in(doc, 0, pos as int) + 2,
            crate::assist::chars_in(doc, 0, doc.len() as int) <= 0x1_0000_0000_0000_0000,
            spec_find_in_file(doc, select_text@, start_text@) == find_in_rec(
                doc,
                select_text@,
                is_comp,
                pos as int,
                begin,
                bc as int,
                attr@,
            ),
        decreases n - pos,
    {
        let line: &str = lines[pos].as_str();
        proof {
            assert(line@ == doc[pos as int]);
            crate::assist::lemma_chars_in_split(doc, 0, pos as int, pos + 1);
            crate::assist::lemma_chars_in_split(doc, 0, pos + 1, doc.len() as int);
        }
        if begin && script_end_check(line) {
            return None;
        }
        if !begin {
            begin = script_start_check(line);
            pos = pos + 1;
            continue;
        }
        // current section keyword
        match key_section_capture(line) {
            Some(kw) => {
                if is_vue_attr_check(kw.as_str()) && bc == 0 {
                    attr = kw;
                }
            },
            None => {},
        }
        if is_comp {
            if attr.as_str().unicode_len() > 0 {
                return None;
            }
            if comp_import_check(line, select_text) {
                if let Some(path) = get_definition_position(line) {
                    return Some(DefinitionLocation {
                        file_path: path,
                        line: to_u32(pos),
                        character: 0,
                    });
                }
            }
        } else {
            let l = count_chars(line, '{');
            let r = count_chars(line, '}');
            let is_data = str_eq(attr.as_str(), "data");
            if is_data && bc >= 2 {
                match data_prop_capture(line) {
                    Some(p) => {
                        if str_eq(p.as_str(), select_text) && bc == 2 {
                            let f = match find_sub_from(line, select_text, 0) {
                                Some(f) => f + select_text.unicode_len(),
                                None => select_text.unicode_len(),
                            };
                            return Some(DefinitionLocation {
                                file_path: String::new(),
                                line: to_u32(pos),
                                character: to_u32(f),
                            });
                        }
                    },
                    None => {},
                }
                if data_return_check(line) {
                    bc = 2;
                } else {
                    bc = bc + l as i128 - r as i128;
                }
            } else if attr.as_str().unicode_len() > 0 {
                match method_prop_capture(line) {
                    Some(p) => {
                        if str_eq(p.as_str(), select_text) && bc == 1 {
                            let f = match find_sub_from(line, select_text, 0) {
                                Some(f) => f + select_text.unicode_len(),
                                None => select_text.unicode_len(),
                            };
                            return Some(DefinitionLocation {
                                file_path: String::new(),
                                line: to_u32(pos),
                                character: to_u32(f),
                            });
                        }
                    },
                    None => {},
                }
                if is_data && data_return_check(line) {
                    bc = 2;
                } else {
                    bc = bc + l as i128 - r as i128;
                }
            } else {
                if is_data && data_return_check(line) {
                    bc = 2;
                }
            }
        }
        pos = pos + 1;
    }
    None
}

/// Bounds of the run scans used by the capture specs.
proof fn lemma_skip_word_back_range(line: Seq<char>, j: int)
    requires
        j >= -1,
    ensures
        -1 <= skip_word_back(line, j) <= j,
    decreases j + 1,
{
    if !(j < 0 || j >= line.len() || !is_word(line[j])) {
        lemma_skip_word_back_range(line, j - 1);
    }
}

proof fn lemma_skip_ws_back_range(line: Seq<char>, j: int)
    requires
        j >= -1,
    ensures
        -1 <= skip_ws_back(line, j) <= j,
    decreases j + 1,
{
    if !(j < 0 || j >= line.len() || !is_space(line[j])) {
        lemma_skip_ws_back_range(line, j - 1);
    }
}

/// A found colon-after-identifier position lies on the line.
proof fn lemma_first_colon_word_range(line: Seq<char>, i: int)
    requires
        0 <= i,
        first_colon_word(line, i) is Some,
    ensures
        ({
            let j = first_colon_word(line, i).unwrap();
            i <= j < line.len() && j >= 1 && is_word(line[j - 1])
        }),
    decreases line.len() - i,
{
    if i < line.len() && !(line[i] == ':' && i >= 1 && is_word(line[i - 1]) && i + 1 < line.len()) {
        lemma_first_colon_word_range(line, i + 1);
    }
}

/// A found colon-or-parenthesis position lies on the line.
proof fn lemma_first_colon_paren_range(line: Seq<char>, i: int)
    requires
        0 <= i,
        first_colon_paren(line, i) is Some,
    ensures
        ({
            let j = first_colon_paren(line, i).unwrap();
            i <= j < line.len()
        }),
    decreases line.len() - i,
{
    if i < line.len() && !(line[i] == ':' || line[i] == '(') {
        lemma_first_colon_paren_range(line, i + 1);
    }
}

/// A captured data property name occurs on its line.
proof fn lemma_data_prop_occurs(line: Seq<char>)
    requires
        data_prop_name(line) is Some,
    ensures
        exists|w: int| occurs_at(line, data_prop_name(line).unwrap(), w),
{
    let j = first_colon_word(line, 0).unwrap();
    lemma_first_colon_word_range(line, 0);
    lemma_skip_word_back_range(line, j - 1);
    let w = skip_word_back(line, j - 1) + 1;
    let name = line.subrange(w, j);
    assert(line.subrange(w, w + name.len()) == name);
    assert(occurs_at(line, name, w));
    assert(data_prop_name(line).unwrap() == name);
    assert(exists|x: int| occurs_at(line, data_prop_name(line).unwrap(), x));
}

/// A captured member name occurs on its line.
proof fn lemma_method_prop_occurs(line: Seq<char>)
    requires
        method_prop_name(line) is Some,
    ensures
        exists|w: int| occurs_at(line, method_prop_name(line).unwrap(), w),
{
    let j = first_colon_paren(line, 0).unwrap();
    lemma_first_colon_paren_range(line, 0);
    lemma_skip_ws_back_range(line, j - 1);
    let k = skip_ws_back(line, j - 1);
    lemma_skip_word_back_range(line, k);
    let a = skip_word_back(line, k) + 1;
    let run = line.subrange(a, k + 1);
    if run.len() >= 5 && run[0] == 'a' && run[1] == 's' && run[2] == 'y' && run[3] == 'n'
        && run[4] == 'c' {
        let name = run.subrange(5, run.len() as int);
        assert(name =~= line.subrange(a + 5, k + 1));
        assert(line.subrange(a + 5, a + 5 + name.len()) == line.subrange(a + 5, k + 1));
        assert(occurs_at(line, name, a + 5));
        assert(method_prop_name(line).unwrap() == name);
        assert(exists|x: int| occurs_at(line, method_prop_name(line).unwrap(), x));
    } else {
        assert(line.subrange(a, a + run.len()) == run);
        assert(occurs_at(line, run, a));
        assert(method_prop_name(line).unwrap() == run);
        assert(exists|x: int| occurs_at(line, method_prop_name(line).unwrap(), x));
    }
}

/// Any hit of the identifier-mode state machine names a line that holds
/// the identifier, with an empty file path and the character one past the
/// identifier's first occurrence on that line.
proof fn lemma_identifier_hit_past_match(
    doc: Seq<Seq<char>>,
    select: Seq<char>,
    pos: int,
    begin: bool,
    bc: int,
    attr: Seq<char>,
)
    requires
        find_in_rec(doc, select, false, pos, begin, bc, attr) is Some,
    ensures
        ({
            let t = find_in_rec(doc, select, false, pos, begin, bc, attr).unwrap();
            &&& t.0 == Seq::<char>::empty()
            &&& pos <= t.1 < doc.len()
            &&& find_from(doc[t.1], select, 0) matches Some(f) && occurs_at(doc[t.1], select, f)
                && t.2 == f + select.len()
        }),
    decreases doc.len() - pos,
{
    let line = doc[pos];
    if begin && script_end_line(line) {
        assert(false);
    } else if !begin {
        lemma_identifier_hit_past_match(doc, select, pos + 1, script_start_line(line), bc, attr);
    } else {
        let attr2 = match key_section_keyword(line, 0) {
            Some(kw) => if is_vue_attr(kw) && bc == 0 {
                kw
            } else {
                attr
            },
            None => attr,
        };
        let l = count_char_from(line, '{', 0) as int;
        let r = count_char_from(line, '}', 0) as int;
        if attr2 == "data"@ && bc >= 2 {
            if data_prop_name(line) == Some(select) && bc == 2 {
                lemma_data_prop_occurs(line);
                let w = choose|w: int| occurs_at(line, select, w);
                crate::text::lemma_find_from_complete(line, select, 0, w);
                crate::text::lemma_find_from_occurs(line, select, 0);
            } else {
                let bc2 = if has_data_return(line) {
                    2int
                } else {
                    bc + l - r
                };
                lemma_identifier_hit_past_match(doc, select, pos + 1, begin, bc2, attr2);
            }
        } else if attr2.len() > 0 {
            if method_prop_name(line) == Some(select) && bc == 1 {
                lemma_method_prop_occurs(line);
                let w = choose|w: int| occurs_at(line, select, w);
                crate::text::lemma_find_from_complete(line, select, 0, w);
                crate::text::lemma_find_from_occurs(line, select, 0);
            } else {
                let bc2 = if attr2 == "data"@ && has_data_return(line) {
                    2int
                } else {
                    bc + l - r
                };
                lemma_identifier_hit_past_match(doc, select, pos + 1, begin, bc2, attr2);
            }
        } else {
            let bc2 = if attr2 == "data"@ && has_data_return(line) {
                2int
            } else {
                bc
            };
            lemma_identifier_hit_past_match(doc, select, pos + 1, begin, bc2, attr2);
        }
    }
}

/// In identifier mode, any found definition stays in the same document
/// (an empty file path), names a line that really holds the identifier,
/// and its character offset is one past the identifier's first occurrence
/// on that line.
pub proof fn law_lookup_hit_past_first_match(
    doc: Seq<Seq<char>>,
    select: Seq<char>,
    start_text: Seq<char>,
)
    requires
        start_text != "<"@,
        spec_find_in_file(doc, select, start_text) is Some,
    ensures
        ({
            let t = spec_find_in_file(doc, select, start_text).unwrap();
            &&& t.0 == Seq::<char>::empty()
            &&& 0 <= t.1 < doc.len()
            &&& find_from(doc[t.1], select, 0) matches Some(f) && occurs_at(doc[t.1], select, f)
                && t.2 == f + select.len()
        }),
{
    lemma_identifier_hit_past_match(doc, select, 0, false, 0, Seq::<char>::empty());
}

} // verus!
