//! Character-level string utilities shared by the scanners: whitespace
//! trimming, prefix/suffix tests, substring search, splitting and joining,
//! plus the few trusted bridges to std string routines that vstd gives no
//! specification for.
//!
//! The whitespace, identifier and tag-name character classes here are
//! deliberately the ASCII sets, so that every scan is specified by a
//! concrete predicate a reader can evaluate.  Characters outside ASCII
//! are ordinary text to the scanners: they never open or close a token.
//! Only case conversion (`lower_of`, `upper_of`, `lower_first_of`) spans
//! all of Unicode, through the named results of the std routines.

use vstd::prelude::*;

verus! {

/// The whitespace characters the scanners recognise: the ASCII set, by
/// the deliberate scope above.
pub open spec fn is_space(c: char) -> bool {
    c == ' ' || c == '\t' || c == '\n' || c == '\r' || c == '\u{b}' || c == '\u{c}'
}

pub fn is_space_char(c: char) -> (r: bool)
    ensures
        r == is_space(c),
{
    c == ' ' || c == '\t' || c == '\n' || c == '\r' || c == '\u{b}' || c == '\u{c}'
}

/// Number of leading whitespace characters of `s`.
pub open spec fn leading_ws(s: Seq<char>) -> nat
    decreases s.len(),
{
    if s.len() == 0 || !is_space(s[0]) {
        0
    } else {
        1 + leading_ws(s.subrange(1, s.len() as int))
    }
}

/// Number of trailing whitespace characters of `s`.
pub open spec fn trailing_ws(s: Seq<char>) -> nat
    decreases s.len(),
{
    if s.len() == 0 || !is_space(s[s.len() - 1]) {
        0
    } else {
        1 + trailing_ws(s.subrange(0, s.len() - 1))
    }
}

pub proof fn lemma_leading_ws_le(s: Seq<char>)
    ensures
        leading_ws(s) <= s.len(),
    decreases s.len(),
{
    if s.len() > 0 && is_space(s[0]) {
        lemma_leading_ws_le(s.subrange(1, s.len() as int));
    }
}

pub proof fn lemma_trailing_ws_le(s: Seq<char>)
    ensures
        trailing_ws(s) <= s.len(),
    decreases s.len(),
{
    if s.len() > 0 && is_space(s[s.len() - 1]) {
        lemma_trailing_ws_le(s.subrange(0, s.len() - 1));
    }
}

/// `s` with leading and trailing whitespace removed (empty when the two
/// whitespace runs overlap, i.e. the string is all blank).
pub open spec fn trim_view(s: Seq<char>) -> Seq<char> {
    if leading_ws(s) + trailing_ws(s) <= s.len() {
        s.subrange(leading_ws(s) as int, s.len() - trailing_ws(s))
    } else {
        Seq::<char>::empty()
    }
}

/// Index of the first non-whitespace character (the length if all blank).
pub fn trim_start_index(s: &str) -> (r: usize)
    ensures
        r == leading_ws(s@),
{
    let n = s.unicode_len();
    proof {
        assert(s@.subrange(0, n as int) =~= s@);
    }
    let mut i: usize = 0;
    while i < n && is_space_char(s.get_char(i))
        invariant
            0 <= i <= n,
            n == s@.len(),
            leading_ws(s@) == i + leading_ws(s@.subrange(i as int, n as int)),
        decreases n - i,
    {
        proof {
            let tail = s@.subrange(i as int, n as int);
            assert(tail[0] == s@[i as int]);
            assert(tail.subrange(1, tail.len() as int) =~= s@.subrange(i + 1, n as int));
        }
        i = i + 1;
    }
    proof {
        let tail = s@.subrange(i as int, n as int);
        if i < n {
            assert(tail[0] == s@[i as int]);
        }
        assert(leading_ws(tail) == 0);
    }
    i
}

/// One past the last non-whitespace character (0 if all blank).
pub fn trim_end_index(s: &str) -> (r: usize)
    ensures
        r == s@.len() - trailing_ws(s@),
{
    let n = s.unicode_len();
    proof {
        lemma_trailing_ws_le(s@);
        assert(s@.subrange(0, n as int) =~= s@);
    }
    let mut i: usize = n;
    while i > 0 && is_space_char(s.get_char(i - 1))
        invariant
            0 <= i <= n,
            n == s@.len(),
            trailing_ws(s@) == (n - i) + trailing_ws(s@.subrange(0, i as int)),
            trailing_ws(s@.subrange(0, i as int)) <= i,
        decreases i,
    {
        proof {
            let head = s@.subrange(0, i as int);
            assert(head[head.len() - 1] == s@[i - 1]);
            assert(head.subrange(0, head.len() - 1) =~= s@.subrange(0, i - 1));
            lemma_trailing_ws_le(s@.subrange(0, i - 1));
        }
        i = i - 1;
    }
    proof {
        let head = s@.subrange(0, i as int);
        if i > 0 {
            assert(head[head.len() - 1] == s@[i - 1]);
        }
        assert(trailing_ws(head) == 0);
    }
    i
}

/// `s.trim()`: both ends stripped of whitespace.
pub fn trim_str<'a>(s: &'a str) -> (r: &'a str)
    ensures
        r@ == trim_view(s@),
{
    let a = trim_start_index(s);
    let b = trim_end_index(s);
    proof {
        lemma_leading_ws_le(s@);
        lemma_trailing_ws_le(s@);
    }
    if a <= b {
        s.substring_char(a, b)
    } else {
        let r = s.substring_char(0, 0);
        proof {
            assert(r@ =~= Seq::<char>::empty());
        }
        r
    }
}

/// The pattern `p` occurs in `s` starting at index `i`.
pub open spec fn occurs_at(s: Seq<char>, p: Seq<char>, i: int) -> bool {
    0 <= i && i + p.len() <= s.len() && s.subrange(i, i + p.len()) == p
}

/// Some occurrence of `p` exists anywhere in `s`.
pub open spec fn contains_sub(s: Seq<char>, p: Seq<char>) -> bool {
    exists|i: int| occurs_at(s, p, i)
}

/// Whether `p` occurs in `s` at position `i`.
pub fn occurs_at_check(s: &str, p: &str, i: usize) -> (r: bool)
    ensures
        r == occurs_at(s@, p@, i as int),
{
    let sn = s.unicode_len();
    let pn = p.unicode_len();
    if pn > sn || i > sn - pn {
        proof {
            assert(!occurs_at(s@, p@, i as int));
        }
        return false;
    }
    let mut k: usize = 0;
    while k < pn
        invariant
            0 <= k <= pn,
            sn == s@.len(),
            pn == p@.len(),
            i + pn <= sn,
            forall|j: int| 0 <= j < k ==> s@[i + j] == p@[j],
        decreases pn - k,
    {
        if s.get_char(i + k) != p.get_char(k) {
            proof {
                let sub = s@.subrange(i as int, i + pn);
                assert(sub[k as int] == s@[i + k]);
            }
            return false;
        }
        k = k + 1;
    }
    proof {
        assert(s@.subrange(i as int, i + pn) =~= p@);
    }
    true
}

/// `s.starts_with(p)`.
pub fn starts_with(s: &str, p: &str) -> (r: bool)
    ensures
        r == occurs_at(s@, p@, 0),
{
    occurs_at_check(s, p, 0)
}

/// `s.ends_with(p)`.
pub fn ends_with(s: &str, p: &str) -> (r: bool)
    ensures
        r == (p@.len() <= s@.len() && occurs_at(s@, p@, s@.len() - p@.len())),
{
    let sn = s.unicode_len();
    let pn = p.unicode_len();
    if pn > sn {
        return false;
    }
    occurs_at_check(s, p, sn - pn)
}

/// Character-for-character string equality.
pub fn str_eq(a: &str, b: &str) -> (r: bool)
    ensures
        r == (a@ == b@),
{
    let an = a.unicode_len();
    let bn = b.unicode_len();
    if an != bn {
        return false;
    }
    let mut k: usize = 0;
    while k < an
        invariant
            0 <= k <= an,
            an == a@.len(),
            an == b@.len(),
            forall|j: int| 0 <= j < k ==> a@[j] == b@[j],
        decreases an - k,
    {
        if a.get_char(k) != b.get_char(k) {
            return false;
        }
        k = k + 1;
    }
    proof {
        assert(a@ =~= b@);
    }
    true
}

/// Index of the first occurrence of `p` in `s`, if any.
pub fn find_sub(s: &str, p: &str) -> (r: Option<usize>)
    ensures
        match r {
            Some(i) => occurs_at(s@, p@, i as int) && forall|j: int|
                0 <= j < i ==> !occurs_at(s@, p@, j),
            None => !contains_sub(s@, p@),
        },
{
    let sn = s.unicode_len();
    let pn = p.unicode_len();
    if pn > sn {
        proof {
            assert(forall|j: int| !occurs_at(s@, p@, j));
        }
        return None;
    }
    if pn == 0 {
        proof {
            assert(s@.subrange(0, 0) =~= p@);
        }
        return Some(0);
    }
    let mut i: usize = 0;
    while i <= sn - pn
        invariant
            0 <= i <= sn - pn + 1,
            1 <= pn <= sn,
            sn == s@.len(),
            pn == p@.len(),
            forall|j: int| 0 <= j < i ==> !occurs_at(s@, p@, j),
        decreases sn - pn + 1 - i,
    {
        if occurs_at_check(s, p, i) {
            return Some(i);
        }
        i = i + 1;
    }
    proof {
        assert forall|j: int| !occurs_at(s@, p@, j) by {
            if 0 <= j <= sn - pn {
                assert(!occurs_at(s@, p@, j));
            }
        }
    }
    None
}


/// First position at or after `i` where `p` occurs in `s`.
pub open spec fn find_from(s: Seq<char>, p: Seq<char>, i: int) -> Option<int>
    decreases s.len() + 1 - i,
{
    if i < 0 || i + p.len() > s.len() {
        None
    } else if occurs_at(s, p, i) {
        Some(i)
    } else {
        find_from(s, p, i + 1)
    }
}

/// A `None` from `find_from` rules out every occurrence at or after `from`.
pub proof fn lemma_find_from_none(s: Seq<char>, p: Seq<char>, from: int, j: int)
    requires
        0 <= from <= j,
        find_from(s, p, from) is None,
    ensures
        !occurs_at(s, p, j),
    decreases s.len() + 1 - from,
{
    if from + p.len() > s.len() {
    } else {
        if j > from {
            lemma_find_from_none(s, p, from + 1, j);
        }
    }
}

/// A `Some` from `find_from` is an occurrence.
pub proof fn lemma_find_from_occurs(s: Seq<char>, p: Seq<char>, from: int)
    requires
        0 <= from,
        find_from(s, p, from) is Some,
    ensures
        occurs_at(s, p, find_from(s, p, from).unwrap()),
    decreases s.len() + 1 - from,
{
    if from + p.len() <= s.len() && !occurs_at(s, p, from) {
        lemma_find_from_occurs(s, p, from + 1);
    }
}

/// An occurrence at or after `from` makes `find_from` find one.
pub proof fn lemma_find_from_complete(s: Seq<char>, p: Seq<char>, from: int, w: int)
    requires
        0 <= from <= w,
        occurs_at(s, p, w),
    ensures
        find_from(s, p, from) is Some,
    decreases w - from,
{
    if from < w && !occurs_at(s, p, from) {
        lemma_find_from_complete(s, p, from + 1, w);
    }
}

/// A `Some` from `find_from` rules out every earlier occurrence.
pub proof fn lemma_find_from_some(s: Seq<char>, p: Seq<char>, from: int, j: int)
    requires
        0 <= from <= j,
        find_from(s, p, from) matches Some(i) && j < i,
    ensures
        !occurs_at(s, p, j),
    decreases j + 1 - from,
{
    if j > from {
        lemma_find_from_some(s, p, from + 1, j);
    }
}

/// Last position at or before `i` where `p` occurs in `s`.
pub open spec fn rfind_upto(s: Seq<char>, p: Seq<char>, i: int) -> Option<int>
    decreases i + 1,
{
    if i < 0 {
        None
    } else if occurs_at(s, p, i) {
        Some(i)
    } else {
        rfind_upto(s, p, i - 1)
    }
}

/// Last position anywhere in `s` where `p` occurs.
pub open spec fn rfind_all(s: Seq<char>, p: Seq<char>) -> Option<int> {
    rfind_upto(s, p, s.len() - p.len())
}

/// First occurrence of `p` in `s` at or after `from`, as the spec function
/// `find_from` describes it.
pub fn find_sub_from(s: &str, p: &str, from: usize) -> (r: Option<usize>)
    ensures
        match r {
            Some(i) => find_from(s@, p@, from as int) == Some(i as int) && i + p@.len() <= s@.len()
                && from <= i,
            None => find_from(s@, p@, from as int) is None,
        },
{
    let sn = s.unicode_len();
    let pn = p.unicode_len();
    if from > sn || pn > sn - from {
        return None;
    }
    if pn == 0 {
        proof {
            assert(s@.subrange(from as int, from as int) =~= p@);
        }
        return Some(from);
    }
    let mut i: usize = from;
    while i <= sn - pn
        invariant
            from <= i <= sn - pn + 1,
            1 <= pn <= sn,
            sn == s@.len(),
            pn == p@.len(),
            find_from(s@, p@, from as int) == find_from(s@, p@, i as int),
        decreases sn - pn + 1 - i,
    {
        if occurs_at_check(s, p, i) {
            return Some(i);
        }
        i = i + 1;
    }
    None
}

/// Last occurrence of `p` anywhere in `s`, as `rfind_all` describes it.
pub fn rfind_sub_all(s: &str, p: &str) -> (r: Option<usize>)
    ensures
        match r {
            Some(i) => rfind_all(s@, p@) == Some(i as int) && i + p@.len() <= s@.len(),
            None => rfind_all(s@, p@) is None,
        },
{
    let sn = s.unicode_len();
    let pn = p.unicode_len();
    if pn > sn {
        proof {
            assert(rfind_upto(s@, p@, s@.len() - p@.len()) is None);
        }
        return None;
    }
    let mut i: usize = sn - pn;
    loop
        invariant
            0 <= i <= sn - pn,
            pn <= sn,
            sn == s@.len(),
            pn == p@.len(),
            rfind_all(s@, p@) == rfind_upto(s@, p@, i as int),
        decreases i,
    {
        if occurs_at_check(s, p, i) {
            return Some(i);
        }
        if i == 0 {
            proof {
                assert(rfind_upto(s@, p@, -1) is None);
            }
            return None;
        }
        i = i - 1;
    }
}

/// Above `s.len() - p.len()` no occurrence fits, so the bound can be
/// clamped there.
pub proof fn lemma_rfind_upto_clamp(s: Seq<char>, p: Seq<char>, i: int)
    requires
        p.len() <= s.len(),
        i > s.len() - p.len(),
    ensures
        rfind_upto(s, p, i) == rfind_upto(s, p, s.len() - p.len()),
    decreases i + 1,
{
    if i - 1 > s.len() - p.len() {
        lemma_rfind_upto_clamp(s, p, i - 1);
    }
}

/// Last occurrence of `p` in `s` at or before `upto`, as `rfind_upto`
/// describes it.
pub fn rfind_sub_upto(s: &str, p: &str, upto: usize) -> (r: Option<usize>)
    ensures
        match r {
            Some(i) => rfind_upto(s@, p@, upto as int) == Some(i as int) && i <= upto && i
                + p@.len() <= s@.len(),
            None => rfind_upto(s@, p@, upto as int) is None,
        },
{
    let sn = s.unicode_len();
    let pn = p.unicode_len();
    if pn > sn {
        proof {
            assert forall|j: int| j <= upto implies !occurs_at(s@, p@, j) by {}
            lemma_rfind_upto_none(s@, p@, upto as int);
        }
        return None;
    }
    let mut i: usize = if upto > sn - pn {
        proof {
            lemma_rfind_upto_clamp(s@, p@, upto as int);
        }
        sn - pn
    } else {
        upto
    };
    loop
        invariant
            0 <= i <= sn - pn,
            pn <= sn,
            sn == s@.len(),
            pn == p@.len(),
            i <= upto,
            rfind_upto(s@, p@, upto as int) == rfind_upto(s@, p@, i as int),
        decreases i,
    {
        if occurs_at_check(s, p, i) {
            return Some(i);
        }
        if i == 0 {
            proof {
                assert(rfind_upto(s@, p@, -1) is None);
            }
            return None;
        }
        i = i - 1;
    }
}

/// A range with no occurrence yields `None` from `rfind_upto`.
proof fn lemma_rfind_upto_none(s: Seq<char>, p: Seq<char>, i: int)
    requires
        forall|j: int| j <= i ==> !occurs_at(s, p, j),
    ensures
        rfind_upto(s, p, i) is None,
    decreases i + 1,
{
    if i >= 0 {
        lemma_rfind_upto_none(s, p, i - 1);
    }
}

/// End of the run of whitespace characters starting at `j`.
pub open spec fn ws_run_end(line: Seq<char>, j: int) -> int
    decreases line.len() - j,
{
    if 0 <= j < line.len() && is_space(line[j]) {
        ws_run_end(line, j + 1)
    } else {
        j
    }
}

/// First index of the whitespace-run end starting at `from`.
pub fn skip_ws_idx(line: &str, from: usize) -> (r: usize)
    requires
        from <= line@.len(),
    ensures
        r == ws_run_end(line@, from as int),
        from <= r <= line@.len(),
{
    let n = line.unicode_len();
    let mut i: usize = from;
    while i < n && is_space_char(line.get_char(i))
        invariant
            from <= i <= n,
            n == line@.len(),
            ws_run_end(line@, from as int) == ws_run_end(line@, i as int),
        decreases n - i,
    {
        i = i + 1;
    }
    i
}

/// Index of the first occurrence of character `c` in `s` at or after `from`.
pub fn find_char_from(s: &str, c: char, from: usize) -> (r: Option<usize>)
    requires
        from <= s@.len(),
    ensures
        match r {
            Some(i) => from <= i < s@.len() && s@[i as int] == c && forall|j: int|
                from <= j < i ==> s@[j] != c,
            None => forall|j: int| from <= j < s@.len() ==> s@[j] != c,
        },
{
    let sn = s.unicode_len();
    let mut i: usize = from;
    while i < sn
        invariant
            from <= i <= sn,
            sn == s@.len(),
            forall|j: int| from <= j < i ==> s@[j] != c,
        decreases sn - i,
    {
        if s.get_char(i) == c {
            return Some(i);
        }
        i = i + 1;
    }
    None
}

/// Last index at or before `i` holding a slash.
pub open spec fn last_slash(s: Seq<char>, i: int) -> Option<int>
    decreases i + 1,
{
    if i < 0 || i >= s.len() {
        None
    } else if s[i] == '/' {
        Some(i)
    } else {
        last_slash(s, i - 1)
    }
}

/// Index of the last slash in `s`, if any.
pub fn last_slash_idx(s: &str) -> (r: Option<usize>)
    ensures
        match r {
            Some(p) => last_slash(s@, s@.len() - 1) == Some(p as int) && p < s@.len(),
            None => last_slash(s@, s@.len() - 1) is None,
        },
{
    let n = s.unicode_len();
    let mut i: usize = n;
    while i > 0
        invariant
            0 <= i <= n,
            n == s@.len(),
            last_slash(s@, n - 1) == last_slash(s@, i - 1),
        decreases i,
    {
        i = i - 1;
        if s.get_char(i) == '/' {
            return Some(i);
        }
    }
    None
}

/// Last index holding a dot, if any.
pub open spec fn last_dot(s: Seq<char>) -> Option<int> {
    last_char_at(s, '.', s.len() - 1)
}

/// Last index at or before `i` holding character `c`.
pub open spec fn last_char_at(s: Seq<char>, c: char, i: int) -> Option<int>
    decreases i + 1,
{
    if i < 0 || i >= s.len() {
        None
    } else if s[i] == c {
        Some(i)
    } else {
        last_char_at(s, c, i - 1)
    }
}

/// Index of the last dot in `s`, if any.
pub fn last_dot_idx(s: &str) -> (r: Option<usize>)
    ensures
        match r {
            Some(p) => last_dot(s@) == Some(p as int) && p < s@.len(),
            None => last_dot(s@) is None,
        },
{
    let n = s.unicode_len();
    let mut i: usize = n;
    while i > 0
        invariant
            0 <= i <= n,
            n == s@.len(),
            last_char_at(s@, '.', n - 1) == last_char_at(s@, '.', i - 1),
        decreases i,
    {
        i = i - 1;
        if s.get_char(i) == '.' {
            return Some(i);
        }
    }
    None
}

/// Identifier characters: ASCII letters, digits and underscore, by the
/// deliberate scope above.
pub open spec fn is_word(c: char) -> bool {
    ('a' <= c && c <= 'z') || ('A' <= c && c <= 'Z') || ('0' <= c && c <= '9') || c == '_'
}

pub fn is_word_char(c: char) -> (r: bool)
    ensures
        r == is_word(c),
{
    ('a' <= c && c <= 'z') || ('A' <= c && c <= 'Z') || ('0' <= c && c <= '9') || c == '_'
}

/// Characters allowed in a markup tag name: identifier characters or a dash.
pub open spec fn is_tag_char(c: char) -> bool {
    is_word(c) || c == '-'
}

pub fn is_tag_name_char(c: char) -> (r: bool)
    ensures
        r == is_tag_char(c),
{
    is_word_char(c) || c == '-'
}

/// Code point of `c` with ASCII uppercase letters folded to lowercase.
pub open spec fn fold_code(c: char) -> int {
    if 'A' <= c && c <= 'Z' {
        (c as u32) + 32
    } else {
        (c as u32) as int
    }
}

/// Case-insensitive comparison of two characters, ASCII letters only.
pub fn chars_eq_nocase(a: char, b: char) -> (r: bool)
    ensures
        r == (fold_code(a) == fold_code(b)),
{
    let ac: u32 = if 'A' <= a && a <= 'Z' {
        (a as u32) + 32
    } else {
        a as u32
    };
    let bc: u32 = if 'A' <= b && b <= 'Z' {
        (b as u32) + 32
    } else {
        b as u32
    };
    ac == bc
}

/// `s` with every occurrence of `from` replaced by `to`.
pub fn replace_char(s: &str, from: char, to: char) -> (r: String)
    ensures
        r@.len() == s@.len(),
        forall|j: int|
            0 <= j < s@.len() ==> r@[j] == (if s@[j] == from {
                to
            } else {
                s@[j]
            }),
{
    let n = s.unicode_len();
    let mut out = String::new();
    let mut i: usize = 0;
    while i < n
        invariant
            0 <= i <= n,
            n == s@.len(),
            out@.len() == i,
            forall|j: int|
                0 <= j < i ==> out@[j] == (if s@[j] == from {
                    to
                } else {
                    s@[j]
                }),
        decreases n - i,
    {
        let c = s.get_char(i);
        if c == from {
            push_char(&mut out, to);
        } else {
            push_char(&mut out, c);
        }
        i = i + 1;
    }
    out
}

/// Narrowing an index that the caller knows fits the host protocol's range.
pub fn to_u32(x: usize) -> (r: u32)
    requires
        x <= 0xFFFF_FFFF,
    ensures
        r == x,
{
    x as u32
}

/// Relies on String::push: appends exactly one character at the end.
#[verifier::external_body]
pub fn push_char(s: &mut String, c: char)
    ensures
        final(s)@ == old(s)@.push(c),
{
    s.push(c)
}

/// The sequence of characters that str::to_lowercase maps `s` to; it depends
/// on the characters of `s` alone.
pub uninterp spec fn lower_of(s: Seq<char>) -> Seq<char>;

/// Relies on str::to_lowercase: the result is a function of the input's
/// characters, and an empty input stays empty.
#[verifier::external_body]
pub fn lowercase_str(s: &str) -> (r: String)
    ensures
        r@ == lower_of(s@),
        s@.len() == 0 ==> r@.len() == 0,
{
    s.to_lowercase()
}

/// Whether char::is_uppercase holds of `c`; it depends on `c` alone.
pub uninterp spec fn upper_of(c: char) -> bool;

/// Relies on char::is_uppercase: on ASCII it holds exactly of 'A' to 'Z'.
#[verifier::external_body]
pub fn char_is_upper(c: char) -> (r: bool)
    ensures
        r == upper_of(c),
        ('A' <= c && c <= 'Z') ==> r,
        (c as u32) < 128 && !('A' <= c && c <= 'Z') ==> !r,
{
    c.is_uppercase()
}

/// The first character of char::to_lowercase of `c`; it depends on `c` alone.
pub uninterp spec fn lower_first_of(c: char) -> char;

/// Relies on char::to_lowercase: the mapping never yields an empty sequence,
/// and on ASCII uppercase letters its first character is the letter shifted
/// into the lowercase range.
#[verifier::external_body]
pub fn char_lower_first(c: char) -> (r: char)
    ensures
        r == lower_first_of(c),
        ('A' <= c && c <= 'Z') ==> (r as u32) == (c as u32) + 32,
        (c as u32) < 128 && !('A' <= c && c <= 'Z') ==> r == c,
{
    match c.to_lowercase().next() {
        Some(l) => l,
        None => c,
    }
}

} // verus!
