//! Laws of bracket block selection: from any cursor position strictly
//! inside a matched delimiter pair of balanced text, selection returns
//! exactly that pair's innermost interior, and re-invoking just outside a
//! returned selection widens it strictly.  The laws are proved first on
//! one character sequence, then for whole documents by flattening the
//! lines and relating the per-line scans to the flat scan.

use vstd::prelude::*;

use crate::assist::{
    scan_back_line, scan_fwd_line, scan_back_lines, scan_fwd_lines, spec_find_open,
    spec_find_close, spec_js_block, spec_block_selection, chars_in, lemma_chars_in_split,
};

verus! {

/// Number of occurrences of `ch` in `s[a..b)`.
pub open spec fn cnt(s: Seq<char>, ch: char, a: int, b: int) -> nat
    decreases b - a,
{
    if a < 0 || a >= b || b > s.len() {
        0
    } else {
        (if s[a] == ch {
            1nat
        } else {
            0nat
        }) + cnt(s, ch, a + 1, b)
    }
}

/// Closers minus openers in `s[a..b)`.
pub open spec fn excess(s: Seq<char>, o: char, c: char, a: int, b: int) -> int {
    cnt(s, c, a, b) - cnt(s, o, a, b)
}

/// The range `s[a..b)` is balanced: equally many openers and closers, and
/// no prefix closes more than it has opened.
pub open spec fn balanced_range(s: Seq<char>, o: char, c: char, a: int, b: int) -> bool {
    &&& 0 <= a <= b <= s.len()
    &&& excess(s, o, c, a, b) == 0
    &&& forall|m: int| a <= m <= b ==> #[trigger] excess(s, o, c, a, m) <= 0
}

/// `(i, j)` is a matched delimiter pair: an opener, a closer, and a
/// balanced interior.
pub open spec fn matched_pair(s: Seq<char>, o: char, c: char, i: int, j: int) -> bool {
    &&& 0 <= i < j < s.len()
    &&& s[i] == o
    &&& s[j] == c
    &&& balanced_range(s, o, c, i + 1, j)
}

proof fn lemma_cnt_split(s: Seq<char>, ch: char, a: int, m: int, b: int)
    requires
        0 <= a <= m <= b <= s.len(),
    ensures
        cnt(s, ch, a, b) == cnt(s, ch, a, m) + cnt(s, ch, m, b),
    decreases m - a,
{
    if a < m {
        lemma_cnt_split(s, ch, a + 1, m, b);
    }
}

proof fn lemma_cnt_last(s: Seq<char>, ch: char, a: int, b: int)
    requires
        0 <= a <= b < s.len(),
    ensures
        cnt(s, ch, a, b + 1) == cnt(s, ch, a, b) + (if s[b] == ch {
            1int
        } else {
            0int
        }),
    decreases b - a,
{
    if a < b {
        lemma_cnt_last(s, ch, a + 1, b);
    } else {
        assert(cnt(s, ch, b + 1, b + 1) == 0);
    }
}

/// One step of `excess` on the right end.
proof fn lemma_excess_last(s: Seq<char>, o: char, c: char, a: int, b: int)
    requires
        o != c,
        0 <= a <= b < s.len(),
    ensures
        excess(s, o, c, a, b + 1) == excess(s, o, c, a, b) + (if s[b] == c {
            1int
        } else if s[b] == o {
            -1int
        } else {
            0int
        }),
{
    lemma_cnt_last(s, c, a, b);
    lemma_cnt_last(s, o, a, b);
}

/// One step of `excess` on the left end.
proof fn lemma_excess_first(s: Seq<char>, o: char, c: char, a: int, b: int)
    requires
        o != c,
        0 <= a < b <= s.len(),
    ensures
        excess(s, o, c, a, b) == (if s[a] == c {
            1int
        } else if s[a] == o {
            -1int
        } else {
            0int
        }) + excess(s, o, c, a + 1, b),
{
    lemma_excess_split(s, o, c, a, a + 1, b);
    lemma_cnt_last(s, c, a, a);
    lemma_cnt_last(s, o, a, a);
}

proof fn lemma_excess_split(s: Seq<char>, o: char, c: char, a: int, m: int, b: int)
    requires
        0 <= a <= m <= b <= s.len(),
    ensures
        excess(s, o, c, a, b) == excess(s, o, c, a, m) + excess(s, o, c, m, b),
{
    lemma_cnt_split(s, c, a, m, b);
    lemma_cnt_split(s, o, a, m, b);
}

/// The backward scan from `q` with depth `d` stops exactly at an opener
/// whose suffix towards `q` has closers and openers in balance with `d`.
proof fn lemma_back_scan_finds(s: Seq<char>, o: char, c: char, q: int, d: int, i: int)
    requires
        o != c,
        0 <= i <= q < s.len(),
        s[i] == o,
        d + excess(s, o, c, i + 1, q + 1) == 0,
        forall|m: int|
            i < m <= q ==> !(s[m] == o && d + #[trigger] excess(s, o, c, m + 1, q + 1) == 0),
    ensures
        scan_back_line(s, q, d, o, c) == Ok::<int, int>(i),
    decreases q - i,
{
    if q == i {
        assert(excess(s, o, c, i + 1, i + 1) == 0);
    } else {
        lemma_excess_last(s, o, c, i + 1, q);
        assert(excess(s, o, c, q + 1, q + 1) == 0);
        if s[q] == c {
            assert forall|m: int|
                i < m <= q - 1 implies !(s[m] == o && (d + 1) + #[trigger] excess(
                s,
                o,
                c,
                m + 1,
                q,
            ) == 0) by {
                lemma_excess_last(s, o, c, m + 1, q);
            }
            assert(d + 1 + excess(s, o, c, i + 1, q) == 0) by {
                lemma_excess_last(s, o, c, i + 1, q);
            }
            lemma_back_scan_finds(s, o, c, q - 1, d + 1, i);
        } else if s[q] == o {
            // the hypothesis at m == q rules the stop out, so d != 0
            assert(d != 0);
            assert forall|m: int|
                i < m <= q - 1 implies !(s[m] == o && (d - 1) + #[trigger] excess(
                s,
                o,
                c,
                m + 1,
                q,
            ) == 0) by {
                lemma_excess_last(s, o, c, m + 1, q);
            }
            assert(d - 1 + excess(s, o, c, i + 1, q) == 0) by {
                lemma_excess_last(s, o, c, i + 1, q);
            }
            lemma_back_scan_finds(s, o, c, q - 1, d - 1, i);
        } else {
            assert forall|m: int|
                i < m <= q - 1 implies !(s[m] == o && d + #[trigger] excess(s, o, c, m + 1, q)
                == 0) by {
                lemma_excess_last(s, o, c, m + 1, q);
            }
            assert(d + excess(s, o, c, i + 1, q) == 0) by {
                lemma_excess_last(s, o, c, i + 1, q);
            }
            lemma_back_scan_finds(s, o, c, q - 1, d, i);
        }
    }
}

/// The forward scan from `a` with depth `d` stops exactly at the first
/// closer whose prefix from `a` has openers and closers in balance with
/// `d`.
proof fn lemma_fwd_scan_finds(s: Seq<char>, o: char, c: char, a: int, d: int, j: int)
    requires
        o != c,
        0 <= a <= j < s.len(),
        s[j] == c,
        d - excess(s, o, c, a, j) == 0,
        forall|m: int| a <= m < j ==> !(s[m] == c && d - #[trigger] excess(s, o, c, a, m) == 0),
    ensures
        scan_fwd_line(s, a, d, o, c) == Ok::<int, int>(j),
    decreases j - a,
{
    if a == j {
        assert(excess(s, o, c, a, a) == 0);
    } else {
        lemma_excess_first(s, o, c, a, j);
        assert(excess(s, o, c, a, a) == 0);
        let d2: int = if s[a] == o {
            d + 1
        } else if s[a] == c {
            d - 1
        } else {
            d
        };
        if s[a] == c {
            assert(!(s[a] == c && d - excess(s, o, c, a, a) == 0));
            assert(d != 0);
        }
        assert forall|m: int|
            a + 1 <= m < j implies !(s[m] == c && d2 - #[trigger] excess(s, o, c, a + 1, m)
            == 0) by {
            lemma_excess_first(s, o, c, a, m);
        }
        assert(d2 - excess(s, o, c, a + 1, j) == 0) by {
            lemma_excess_first(s, o, c, a, j);
        }
        lemma_fwd_scan_finds(s, o, c, a + 1, d2, j);
    }
}

/// In a segment whose closers outnumber its openers, the last opener whose
/// suffix is in balance exists.
proof fn lemma_neg_excess_open(s: Seq<char>, o: char, c: char, a: int, p: int) -> (k: int)
    requires
        o != c,
        0 <= a <= p <= s.len(),
        excess(s, o, c, a, p) <= -1,
    ensures
        a <= k < p,
        s[k] == o,
        excess(s, o, c, k + 1, p) == 0,
    decreases p - a,
{
    assert(a < p);
    lemma_excess_first(s, o, c, a, p);
    if excess(s, o, c, a + 1, p) <= -1 {
        lemma_neg_excess_open(s, o, c, a + 1, p)
    } else {
        assert(s[a] == o);
        a
    }
}

/// First position from `lo` on where the balance from `start` rises to
/// one: a closer standing exactly at balance, with every prefix before it
/// non-positive.
proof fn lemma_first_rise(s: Seq<char>, o: char, c: char, start: int, lo: int, hi: int) -> (k: int)
    requires
        o != c,
        0 <= start <= lo <= hi <= s.len(),
        forall|t: int| start <= t <= lo ==> #[trigger] excess(s, o, c, start, t) <= 0,
        excess(s, o, c, start, hi) >= 1,
    ensures
        lo <= k < hi,
        s[k] == c,
        excess(s, o, c, start, k) == 0,
        forall|t: int| start <= t <= k ==> #[trigger] excess(s, o, c, start, t) <= 0,
    decreases hi - lo,
{
    assert(lo < hi);
    lemma_excess_last(s, o, c, start, lo);
    if excess(s, o, c, start, lo + 1) >= 1 {
        assert(s[lo] == c && excess(s, o, c, start, lo) == 0);
        lo
    } else {
        lemma_first_rise(s, o, c, start, lo + 1, hi)
    }
}

/// Every opener strictly inside a matched pair is itself matched strictly
/// inside it.
proof fn lemma_open_matched(s: Seq<char>, o: char, c: char, i: int, j: int, m: int) -> (mm: int)
    requires
        o != c,
        matched_pair(s, o, c, i, j),
        i < m < j,
        s[m] == o,
    ensures
        m < mm < j,
        matched_pair(s, o, c, m, mm),
        excess(s, o, c, m + 1, mm) == 0,
{
    // the surplus of closers after m inside the interior is at least one
    lemma_excess_split(s, o, c, i + 1, m + 1, j);
    lemma_excess_last(s, o, c, i + 1, m);
    assert(excess(s, o, c, i + 1, m) <= 0);
    assert(excess(s, o, c, i + 1, m + 1) <= -1);
    assert(excess(s, o, c, m + 1, j) >= 1);
    assert(excess(s, o, c, m + 1, m + 1) == 0);
    let k = lemma_first_rise(s, o, c, m + 1, m + 1, j);
    assert(balanced_range(s, o, c, m + 1, k));
    k
}

/// An opener between the pair's opener and the cursor whose suffix up to
/// the cursor is balanced yields a matched pair that encloses the cursor
/// strictly inside the outer pair.
proof fn lemma_unmatched_open_pair(
    s: Seq<char>,
    o: char,
    c: char,
    i: int,
    j: int,
    m: int,
    p: int,
) -> (pr: (int, int))
    requires
        o != c,
        matched_pair(s, o, c, i, j),
        i < m < p <= j,
        s[m] == o,
        excess(s, o, c, m + 1, p) == 0,
    ensures
        matched_pair(s, o, c, pr.0, pr.1),
        i < pr.0 < p <= pr.1,
        pr.0 >= m,
    decreases p - m,
{
    if m == j {
        assert(false);
    }
    let mm = lemma_open_matched(s, o, c, i, j, m);
    if mm >= p {
        (m, mm)
    } else {
        // the pair of m closes before the cursor, so between its closer
        // and the cursor the openers outnumber the closers
        lemma_excess_split(s, o, c, m + 1, mm, p);
        lemma_excess_split(s, o, c, mm, mm + 1, p);
        lemma_excess_last(s, o, c, mm, mm);
        assert(excess(s, o, c, mm, mm + 1) == 1);
        assert(excess(s, o, c, mm + 1, p) <= -1);
        let k = lemma_neg_excess_open(s, o, c, mm + 1, p);
        lemma_unmatched_open_pair(s, o, c, i, j, k, p)
    }
}

/// `(i, j)` is the innermost matched pair around cursor position `p`: it
/// encloses `p`, and every enclosing matched pair opens at or before `i`.
pub open spec fn innermost_enclosing(
    s: Seq<char>,
    o: char,
    c: char,
    i: int,
    j: int,
    p: int,
) -> bool {
    &&& matched_pair(s, o, c, i, j)
    &&& i < p <= j
    &&& forall|i2: int, j2: int|
        #[trigger] matched_pair(s, o, c, i2, j2) && i2 < p <= j2 ==> i2 <= i
}

/// For balanced text, the suffix between the innermost opener and the
/// cursor is in balance, and no opener after it has a balanced suffix.
proof fn lemma_innermost_scan_conditions(s: Seq<char>, o: char, c: char, i: int, j: int, p: int)
    requires
        o != c,
        innermost_enclosing(s, o, c, i, j, p),
    ensures
        excess(s, o, c, i + 1, p) == 0,
        forall|m: int| i < m < p ==> !(s[m] == o && #[trigger] excess(s, o, c, m + 1, p) == 0),
{
    // the suffix balance: a deficit would name an unmatched opener and so
    // a strictly inner enclosing pair
    assert(excess(s, o, c, i + 1, p) <= 0);
    if excess(s, o, c, i + 1, p) <= -1 {
        let k = lemma_neg_excess_open(s, o, c, i + 1, p);
        let pr = lemma_unmatched_open_pair(s, o, c, i, j, k, p);
        assert(pr.0 <= i);
        assert(false);
    }
    assert forall|m: int|
        i < m < p implies !(s[m] == o && #[trigger] excess(s, o, c, m + 1, p) == 0) by {
        if s[m] == o && excess(s, o, c, m + 1, p) == 0 {
            let pr = lemma_unmatched_open_pair(s, o, c, i, j, m, p);
            assert(pr.0 <= i);
            assert(false);
        }
    }
}

/// Block selection from any cursor position strictly inside a matched
/// bracket pair of balanced single-line text returns exactly that pair's
/// innermost interior, never a pair further out.
pub proof fn law_innermost_interior(s: Seq<char>, o: char, c: char, p: int, i: int, j: int)
    requires
        o != c,
        balanced_range(s, o, c, 0, s.len() as int),
        innermost_enclosing(s, o, c, i, j, p),
    ensures
        spec_js_block(seq![s], 0, p, o, c) == Some((0int, i + 1, 0int, j)),
{
    let doc = seq![s];
    assert(doc[0] == s);
    lemma_innermost_scan_conditions(s, o, c, i, j, p);

    // backward: the scan from just left of the cursor stops at i
    lemma_back_scan_finds(s, o, c, p - 1, 0, i);
    assert(crate::assist::spec_find_open(doc, 0, p, o, c) == Some((0int, i)));

    // forward: the scan from just right of the opener stops at j
    assert forall|m: int|
        i + 1 <= m < j implies !(s[m] == c && 0 - #[trigger] excess(s, o, c, i + 1, m) == 0) by {
        if s[m] == c && excess(s, o, c, i + 1, m) == 0 {
            lemma_excess_last(s, o, c, i + 1, m);
            assert(excess(s, o, c, i + 1, m + 1) == 1);
            assert(false);
        }
    }
    lemma_fwd_scan_finds(s, o, c, i + 1, 0, j);
    assert(crate::assist::spec_find_close(doc, 0, i, o, c) == Some((0int, j)));
}

/// Block selection at the brace pair, stated for the whole operation: the
/// braces are first in the trial order, so an innermost enclosing brace
/// pair decides the selection whatever else the line holds.
pub proof fn law_block_selection_braces(s: Seq<char>, p: int, i: int, j: int)
    requires
        balanced_range(s, '{', '}', 0, s.len() as int),
        innermost_enclosing(s, '{', '}', i, j, p),
    ensures
        spec_block_selection(seq![s], 0, p) == Some((0int, i + 1, 0int, j)),
{
    law_innermost_interior(s, '{', '}', p, i, j);
}

/// Re-invoking block selection anchored just outside a returned selection
/// returns the next, strictly larger, enclosing pair: the selection around
/// the position right after the closer of `(i, j)` is the interior of a
/// pair that strictly contains `(i, j)` - never the same selection twice.
proof fn lemma_widening_bounds(s: Seq<char>, o: char, c: char, i: int, j: int, i2: int, j2: int)
    requires
        o != c,
        matched_pair(s, o, c, i, j),
        innermost_enclosing(s, o, c, i2, j2, j + 1),
    ensures
        i2 < i,
        j < j2,
{
    assert(j2 >= j + 1);
    // i2 cannot be the closer position
    assert(i2 != j);
    if i2 == i {
        // two matches of one opener: the prefix of the wider interior
        // turns positive right after the narrower closer
        assert(balanced_range(s, o, c, i + 1, j2));
        lemma_excess_split(s, o, c, i + 1, j, j + 1);
        lemma_excess_last(s, o, c, i + 1, j);
        assert(excess(s, o, c, i + 1, j + 1) == 1);
        assert(false);
    }
    if i < i2 < j {
        // crossing pairs are impossible: inside the interior of (i, j)
        // the suffix after i2 holds a closer surplus, while the interior
        // of (i2, j2) forbids one
        lemma_excess_split(s, o, c, i + 1, i2 + 1, j);
        lemma_excess_last(s, o, c, i + 1, i2);
        assert(excess(s, o, c, i + 1, i2 + 1) <= -1);
        assert(excess(s, o, c, i2 + 1, j) >= 1);
        assert(balanced_range(s, o, c, i2 + 1, j2));
        assert(excess(s, o, c, i2 + 1, j) <= 0);
        assert(false);
    }
    assert(i2 < i);
}

/// Re-invoking block selection anchored just outside a returned selection
/// returns the next, strictly larger, enclosing pair: the selection around
/// the position right after the closer of `(i, j)` is the interior of a
/// pair that strictly contains `(i, j)` - never the same selection twice.
pub proof fn law_monotonic_widening(
    s: Seq<char>,
    o: char,
    c: char,
    p: int,
    i: int,
    j: int,
    i2: int,
    j2: int,
)
    requires
        o != c,
        balanced_range(s, o, c, 0, s.len() as int),
        innermost_enclosing(s, o, c, i, j, p),
        innermost_enclosing(s, o, c, i2, j2, j + 1),
    ensures
        spec_js_block(seq![s], 0, j + 1, o, c) == Some((0int, i2 + 1, 0int, j2)),
        i2 < i,
        j < j2,
{
    law_innermost_interior(s, o, c, j + 1, i2, j2);
    lemma_widening_bounds(s, o, c, i, j, i2, j2);
}

/// The widening law at the whole block-selection operation, for the brace
/// pair: re-invoking just outside the previous brace selection selects the
/// interior of the strictly larger enclosing brace pair.
pub proof fn law_block_selection_widening_braces(
    s: Seq<char>,
    p: int,
    i: int,
    j: int,
    i2: int,
    j2: int,
)
    requires
        balanced_range(s, '{', '}', 0, s.len() as int),
        innermost_enclosing(s, '{', '}', i, j, p),
        innermost_enclosing(s, '{', '}', i2, j2, j + 1),
    ensures
        spec_block_selection(seq![s], 0, j + 1) == Some((0int, i2 + 1, 0int, j2)),
        i2 < i,
        j < j2,
{
    law_monotonic_widening(s, '{', '}', p, i, j, i2, j2);
}

/// The document's first `k` lines joined into one character sequence.
pub open spec fn flat_upto(doc: Seq<Seq<char>>, k: int) -> Seq<char>
    decreases k,
{
    if k <= 0 {
        Seq::<char>::empty()
    } else {
        flat_upto(doc, k - 1) + doc[k - 1]
    }
}

/// The whole document joined into one character sequence.
pub open spec fn flatten(doc: Seq<Seq<char>>) -> Seq<char> {
    flat_upto(doc, doc.len() as int)
}

/// The flat index of document position `(li, ci)`.
pub open spec fn flat_pos(doc: Seq<Seq<char>>, li: int, ci: int) -> int {
    chars_in(doc, 0, li) + ci
}

/// The count over a left-closed range grows by the last line's length.
proof fn lemma_chars_in_snoc(doc: Seq<Seq<char>>, k: int)
    requires
        k >= 1,
    ensures
        chars_in(doc, 0, k) == chars_in(doc, 0, k - 1) + doc[k - 1].len(),
{
    lemma_chars_in_split(doc, 0, k - 1, k);
    assert(chars_in(doc, k - 1, k) == doc[k - 1].len() + chars_in(doc, k, k));
}

proof fn lemma_flat_upto_len(doc: Seq<Seq<char>>, k: int)
    requires
        0 <= k,
    ensures
        flat_upto(doc, k).len() == chars_in(doc, 0, k),
    decreases k,
{
    if k > 0 {
        lemma_flat_upto_len(doc, k - 1);
        lemma_chars_in_snoc(doc, k);
    }
}

/// The prefix counts grow with the line index.
proof fn lemma_chars_in_mono(doc: Seq<Seq<char>>, a: int, b: int)
    requires
        0 <= a <= b,
    ensures
        chars_in(doc, 0, a) <= chars_in(doc, 0, b),
{
    lemma_chars_in_split(doc, 0, a, b);
}

/// A flat index built from a valid document position reads that line's
/// character.
proof fn lemma_flat_index(doc: Seq<Seq<char>>, k: int, li: int, ci: int)
    requires
        0 <= li < k,
        0 <= ci < doc[li].len(),
    ensures
        0 <= flat_pos(doc, li, ci) < flat_upto(doc, k).len(),
        flat_upto(doc, k)[flat_pos(doc, li, ci)] == doc[li][ci],
    decreases k,
{
    lemma_flat_upto_len(doc, k);
    lemma_chars_in_snoc(doc, k);
    if li == k - 1 {
        lemma_flat_upto_len(doc, k - 1);
        assert(flat_upto(doc, k) == flat_upto(doc, k - 1) + doc[k - 1]);
    } else {
        lemma_flat_index(doc, k - 1, li, ci);
        lemma_flat_upto_len(doc, k - 1);
    }
}

/// Flat positions of valid document positions are distinct across
/// distinct document positions.
proof fn lemma_flat_pos_inj(doc: Seq<Seq<char>>, l1: int, c1: int, l2: int, c2: int)
    requires
        0 <= l1,
        0 <= l2,
        0 <= c1 < doc[l1].len(),
        0 <= c2 < doc[l2].len(),
        flat_pos(doc, l1, c1) == flat_pos(doc, l2, c2),
    ensures
        l1 == l2 && c1 == c2,
{
    if l1 < l2 {
        lemma_chars_in_snoc(doc, l1 + 1);
        lemma_chars_in_mono(doc, l1 + 1, l2);
        assert(false);
    }
    if l2 < l1 {
        lemma_chars_in_snoc(doc, l2 + 1);
        lemma_chars_in_mono(doc, l2 + 1, l1);
        assert(false);
    }
}

/// A backward scan that finds an opener finds it within the scanned
/// prefix.
proof fn lemma_scan_back_ok_range(s: Seq<char>, q: int, d: int, o: char, c: char)
    ensures
        match scan_back_line(s, q, d, o, c) {
            Ok(p) => 0 <= p <= q,
            Err(_) => true,
        },
    decreases q + 1,
{
    if q >= 0 {
        if s[q] == c {
            lemma_scan_back_ok_range(s, q - 1, d + 1, o, c);
        } else if s[q] == o {
            if d != 0 {
                lemma_scan_back_ok_range(s, q - 1, d - 1, o, c);
            }
        } else {
            lemma_scan_back_ok_range(s, q - 1, d, o, c);
        }
    }
}

/// A forward scan that finds a closer finds it within the scanned
/// suffix.
proof fn lemma_scan_fwd_ok_range(s: Seq<char>, q: int, d: int, o: char, c: char)
    ensures
        match scan_fwd_line(s, q, d, o, c) {
            Ok(p) => q <= p < s.len(),
            Err(_) => true,
        },
    decreases s.len() - q,
{
    if 0 <= q < s.len() {
        if s[q] == o {
            lemma_scan_fwd_ok_range(s, q + 1, d + 1, o, c);
        } else if s[q] == c {
            if d != 0 {
                lemma_scan_fwd_ok_range(s, q + 1, d - 1, o, c);
            }
        } else {
            lemma_scan_fwd_ok_range(s, q + 1, d, o, c);
        }
    }
}

/// The flat backward scan through one line's segment agrees with the
/// per-line scan, continuing into the earlier lines on exhaustion.
proof fn lemma_back_segment(doc: Seq<Seq<char>>, li: int, k: int, d: int, o: char, c: char)
    requires
        0 <= li < doc.len(),
        -1 <= k < doc[li].len(),
    ensures
        scan_back_line(flatten(doc), chars_in(doc, 0, li) + k, d, o, c) == (
        match scan_back_line(doc[li], k, d, o, c) {
            Ok(p) => Ok::<int, int>(chars_in(doc, 0, li) + p),
            Err(d2) => scan_back_line(flatten(doc), chars_in(doc, 0, li) - 1, d2, o, c),
        }),
    decreases k + 1,
{
    if k >= 0 {
        lemma_flat_index(doc, doc.len() as int, li, k);
        let fq = chars_in(doc, 0, li) + k;
        assert(flatten(doc)[fq] == doc[li][k]);
        if doc[li][k] == c {
            lemma_back_segment(doc, li, k - 1, d + 1, o, c);
        } else if doc[li][k] == o {
            if d != 0 {
                lemma_back_segment(doc, li, k - 1, d - 1, o, c);
            }
        } else {
            lemma_back_segment(doc, li, k - 1, d, o, c);
        }
    }
}

/// The flat forward scan through one line's segment agrees with the
/// per-line scan, continuing into the later lines on exhaustion.
proof fn lemma_fwd_segment(doc: Seq<Seq<char>>, li: int, k: int, d: int, o: char, c: char)
    requires
        0 <= li < doc.len(),
        0 <= k <= doc[li].len(),
    ensures
        scan_fwd_line(flatten(doc), chars_in(doc, 0, li) + k, d, o, c) == (
        match scan_fwd_line(doc[li], k, d, o, c) {
            Ok(p) => Ok::<int, int>(chars_in(doc, 0, li) + p),
            Err(d2) => scan_fwd_line(flatten(doc), chars_in(doc, 0, li + 1) as int, d2, o, c),
        }),
    decreases doc[li].len() - k,
{
    lemma_chars_in_snoc(doc, li + 1);
    if k < doc[li].len() {
        lemma_flat_index(doc, doc.len() as int, li, k);
        lemma_flat_upto_len(doc, doc.len() as int);
        lemma_chars_in_mono(doc, li + 1, doc.len() as int);
        let fq = chars_in(doc, 0, li) + k;
        assert(flatten(doc)[fq] == doc[li][k]);
        if doc[li][k] == o {
            lemma_fwd_segment(doc, li, k + 1, d + 1, o, c);
        } else if doc[li][k] == c {
            if d != 0 {
                lemma_fwd_segment(doc, li, k + 1, d - 1, o, c);
            }
        } else {
            lemma_fwd_segment(doc, li, k + 1, d, o, c);
        }
    }
}

/// The backward scan over whole lines agrees with the flat backward scan
/// started at the end of the flattened prefix.
proof fn lemma_back_lines_flat(doc: Seq<Seq<char>>, li: int, d: int, o: char, c: char)
    requires
        -1 <= li < doc.len(),
    ensures
        match scan_back_lines(doc, li, d, o, c) {
            Some((l, p)) => 0 <= l < doc.len() && 0 <= p < doc[l].len() && scan_back_line(
                flatten(doc),
                chars_in(doc, 0, li + 1) - 1,
                d,
                o,
                c,
            ) == Ok::<int, int>(flat_pos(doc, l, p)),
            None => scan_back_line(flatten(doc), chars_in(doc, 0, li + 1) - 1, d, o, c) is Err,
        },
    decreases li + 1,
{
    if li >= 0 {
        lemma_chars_in_snoc(doc, li + 1);
        if doc[li].len() == 0 {
            assert(scan_back_line(doc[li], doc[li].len() - 1, d, o, c) == Err::<int, int>(d));
            lemma_back_lines_flat(doc, li - 1, d, o, c);
        } else {
            lemma_back_segment(doc, li, doc[li].len() - 1, d, o, c);
            lemma_scan_back_ok_range(doc[li], doc[li].len() - 1, d, o, c);
            match scan_back_line(doc[li], doc[li].len() - 1, d, o, c) {
                Ok(p) => {},
                Err(d2) => {
                    lemma_back_lines_flat(doc, li - 1, d2, o, c);
                },
            }
        }
    }
}

/// The forward scan over whole lines agrees with the flat forward scan
/// started at the beginning of the flattened suffix.
proof fn lemma_fwd_lines_flat(doc: Seq<Seq<char>>, li: int, d: int, o: char, c: char)
    requires
        0 <= li <= doc.len(),
    ensures
        match scan_fwd_lines(doc, li, d, o, c) {
            Some((l, p)) => 0 <= l < doc.len() && 0 <= p < doc[l].len() && scan_fwd_line(
                flatten(doc),
                chars_in(doc, 0, li) as int,
                d,
                o,
                c,
            ) == Ok::<int, int>(flat_pos(doc, l, p)),
            None => scan_fwd_line(flatten(doc), chars_in(doc, 0, li) as int, d, o, c) is Err,
        },
    decreases doc.len() - li,
{
    lemma_flat_upto_len(doc, doc.len() as int);
    if li < doc.len() {
        lemma_fwd_segment(doc, li, 0, d, o, c);
        lemma_scan_fwd_ok_range(doc[li], 0, d, o, c);
        match scan_fwd_line(doc[li], 0, d, o, c) {
            Ok(p) => {},
            Err(d2) => {
                lemma_fwd_lines_flat(doc, li + 1, d2, o, c);
            },
        }
    } else {
        assert(chars_in(doc, 0, li) == flatten(doc).len());
    }
}

/// The backward search for the enclosing opener agrees with the flat
/// backward scan from just left of the flat cursor position.
proof fn lemma_find_open_flat(doc: Seq<Seq<char>>, cl: int, cc: int, o: char, c: char)
    requires
        0 <= cl < doc.len(),
        0 <= cc <= doc[cl].len(),
    ensures
        match spec_find_open(doc, cl, cc, o, c) {
            Some((l, p)) => 0 <= l < doc.len() && 0 <= p < doc[l].len() && scan_back_line(
                flatten(doc),
                flat_pos(doc, cl, cc) - 1,
                0,
                o,
                c,
            ) == Ok::<int, int>(flat_pos(doc, l, p)),
            None => scan_back_line(flatten(doc), flat_pos(doc, cl, cc) - 1, 0, o, c) is Err,
        },
{
    if cc == 0 {
        lemma_back_lines_flat(doc, cl - 1, 0, o, c);
    } else {
        assert(cc - 1 < doc[cl].len());
        lemma_back_segment(doc, cl, cc - 1, 0, o, c);
        lemma_scan_back_ok_range(doc[cl], cc - 1, 0, o, c);
        match scan_back_line(doc[cl], cc - 1, 0, o, c) {
            Ok(p) => {},
            Err(d2) => {
                lemma_back_lines_flat(doc, cl - 1, d2, o, c);
            },
        }
    }
}

/// The forward search for the matching closer agrees with the flat
/// forward scan from just right of the flat opener position.
proof fn lemma_find_close_flat(doc: Seq<Seq<char>>, sl: int, sc: int, o: char, c: char)
    requires
        0 <= sl < doc.len(),
        0 <= sc < doc[sl].len(),
    ensures
        match spec_find_close(doc, sl, sc, o, c) {
            Some((l, p)) => 0 <= l < doc.len() && 0 <= p < doc[l].len() && scan_fwd_line(
                flatten(doc),
                flat_pos(doc, sl, sc) + 1,
                0,
                o,
                c,
            ) == Ok::<int, int>(flat_pos(doc, l, p)),
            None => scan_fwd_line(flatten(doc), flat_pos(doc, sl, sc) + 1, 0, o, c) is Err,
        },
{
    lemma_fwd_segment(doc, sl, sc + 1, 0, o, c);
    lemma_scan_fwd_ok_range(doc[sl], sc + 1, 0, o, c);
    lemma_chars_in_snoc(doc, sl + 1);
    match scan_fwd_line(doc[sl], sc + 1, 0, o, c) {
        Ok(p) => {},
        Err(d2) => {
            lemma_fwd_lines_flat(doc, sl + 1, d2, o, c);
        },
    }
}

/// Block selection on a whole document: from any cursor position strictly
/// inside a matched delimiter pair of balanced text, the selection is
/// exactly that pair's innermost interior, never a pair further out - the
/// interior on one line, the full lines strictly between the delimiter
/// lines otherwise.  Positions are named both as document coordinates and
/// through their flat indices in the joined line text.
pub proof fn law_innermost_interior_lines(
    doc: Seq<Seq<char>>,
    o: char,
    c: char,
    cl: int,
    cc: int,
    sl: int,
    sc: int,
    el: int,
    ec: int,
)
    requires
        o != c,
        0 <= cl < doc.len(),
        0 <= cc <= doc[cl].len(),
        0 <= sl < doc.len(),
        0 <= sc < doc[sl].len(),
        0 <= el < doc.len(),
        0 <= ec < doc[el].len(),
        balanced_range(flatten(doc), o, c, 0, flatten(doc).len() as int),
        innermost_enclosing(
            flatten(doc),
            o,
            c,
            flat_pos(doc, sl, sc),
            flat_pos(doc, el, ec),
            flat_pos(doc, cl, cc),
        ),
    ensures
        spec_js_block(doc, cl, cc, o, c) == Some(
            if sl == el {
                (sl, sc + 1, el, ec)
            } else {
                (sl + 1, 0, el, 0)
            },
        ),
{
    let f = flatten(doc);
    let i = flat_pos(doc, sl, sc);
    let j = flat_pos(doc, el, ec);
    let p = flat_pos(doc, cl, cc);
    lemma_innermost_scan_conditions(f, o, c, i, j, p);
    lemma_back_scan_finds(f, o, c, p - 1, 0, i);
    lemma_find_open_flat(doc, cl, cc, o, c);
    match spec_find_open(doc, cl, cc, o, c) {
        None => {
            assert(false);
        },
        Some((l0, p0)) => {
            lemma_flat_pos_inj(doc, l0, p0, sl, sc);
            assert forall|m: int|
                i + 1 <= m < j implies !(f[m] == c && 0 - #[trigger] excess(f, o, c, i + 1, m)
                == 0) by {
                if f[m] == c && excess(f, o, c, i + 1, m) == 0 {
                    lemma_excess_last(f, o, c, i + 1, m);
                    assert(excess(f, o, c, i + 1, m + 1) == 1);
                    assert(false);
                }
            }
            lemma_fwd_scan_finds(f, o, c, i + 1, 0, j);
            lemma_find_close_flat(doc, sl, sc, o, c);
            match spec_find_close(doc, sl, sc, o, c) {
                None => {
                    assert(false);
                },
                Some((l1, p1)) => {
                    lemma_flat_pos_inj(doc, l1, p1, el, ec);
                },
            }
        },
    }
}

/// The widening law on a whole document: re-invoking block selection just
/// after the closing delimiter of a returned pair selects the interior of
/// the innermost pair around that position, which strictly contains the
/// previous pair - never the same selection twice.
pub proof fn law_monotonic_widening_lines(
    doc: Seq<Seq<char>>,
    o: char,
    c: char,
    sl: int,
    sc: int,
    el: int,
    ec: int,
    sl2: int,
    sc2: int,
    el2: int,
    ec2: int,
)
    requires
        o != c,
        0 <= sl < doc.len(),
        0 <= sc < doc[sl].len(),
        0 <= el < doc.len(),
        0 <= ec < doc[el].len(),
        0 <= sl2 < doc.len(),
        0 <= sc2 < doc[sl2].len(),
        0 <= el2 < doc.len(),
        0 <= ec2 < doc[el2].len(),
        balanced_range(flatten(doc), o, c, 0, flatten(doc).len() as int),
        matched_pair(flatten(doc), o, c, flat_pos(doc, sl, sc), flat_pos(doc, el, ec)),
        innermost_enclosing(
            flatten(doc),
            o,
            c,
            flat_pos(doc, sl2, sc2),
            flat_pos(doc, el2, ec2),
            flat_pos(doc, el, ec) + 1,
        ),
    ensures
        spec_js_block(doc, el, ec + 1, o, c) == Some(
            if sl2 == el2 {
                (sl2, sc2 + 1, el2, ec2)
            } else {
                (sl2 + 1, 0, el2, 0)
            },
        ),
        flat_pos(doc, sl2, sc2) < flat_pos(doc, sl, sc),
        flat_pos(doc, el2, ec2) > flat_pos(doc, el, ec),
{
    law_innermost_interior_lines(doc, o, c, el, ec + 1, sl2, sc2, el2, ec2);
    lemma_widening_bounds(
        flatten(doc),
        o,
        c,
        flat_pos(doc, sl, sc),
        flat_pos(doc, el, ec),
        flat_pos(doc, sl2, sc2),
        flat_pos(doc, el2, ec2),
    );
}

/// The innermost-interior law at the whole block-selection operation, for
/// the brace pair on a whole document: braces are first in the trial
/// order, so an innermost enclosing brace pair decides the selection
/// whatever else the document holds.
pub proof fn law_block_selection_braces_lines(
    doc: Seq<Seq<char>>,
    cl: int,
    cc: int,
    sl: int,
    sc: int,
    el: int,
    ec: int,
)
    requires
        0 <= cl < doc.len(),
        0 <= cc <= doc[cl].len(),
        0 <= sl < doc.len(),
        0 <= sc < doc[sl].len(),
        0 <= el < doc.len(),
        0 <= ec < doc[el].len(),
        balanced_range(flatten(doc), '{', '}', 0, flatten(doc).len() as int),
        innermost_enclosing(
            flatten(doc),
            '{',
            '}',
            flat_pos(doc, sl, sc),
            flat_pos(doc, el, ec),
            flat_pos(doc, cl, cc),
        ),
    ensures
        spec_block_selection(doc, cl, cc) == Some(
            if sl == el {
                (sl, sc + 1, el, ec)
            } else {
                (sl + 1, 0, el, 0)
            },
        ),
{
    law_innermost_interior_lines(doc, '{', '}', cl, cc, sl, sc, el, ec);
}

} // verus!
