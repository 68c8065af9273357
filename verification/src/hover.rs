//! Hover documentation lookup over the framework metadata tables.

use vstd::prelude::*;

use crate::framework_data::{get_documents, spec_documents_for, fw_view};
use crate::text::str_eq;

verus! {

/// First value bound to `k` in the table, if any.
pub open spec fn table_lookup(tbl: Seq<(Seq<char>, Seq<char>)>, k: Seq<char>) -> Option<Seq<char>>
    decreases tbl.len(),
{
    if tbl.len() == 0 {
        None
    } else if tbl[0].0 == k {
        Some(tbl[0].1)
    } else {
        table_lookup(tbl.subrange(1, tbl.len() as int), k)
    }
}

/// The hover text for `word`, if the framework set's documents name it.
pub fn provide_hover_info(word: &str, frameworks: &Vec<String>, tab_size: &str) -> (r: Option<
    String,
>)
    ensures
        match r {
            Some(d) => table_lookup(spec_documents_for(fw_view(frameworks), tab_size@), word@)
                == Some(d@),
            None => table_lookup(spec_documents_for(fw_view(frameworks), tab_size@), word@)
                is None,
        },
{
    let docs = get_documents(frameworks, tab_size);
    let ghost tbl = crate::framework_data::str_table_view(docs@);
    let n = docs.len();
    let mut i: usize = 0;
    proof {
        assert(tbl.subrange(0, n as int) =~= tbl);
    }
    while i < n
        invariant
            0 <= i <= n,
            n == tbl.len(),
            tbl == crate::framework_data::str_table_view(docs@),
            tbl == spec_documents_for(fw_view(frameworks), tab_size@),
            table_lookup(tbl, word@) == table_lookup(tbl.subrange(i as int, n as int), word@),
        decreases n - i,
    {
        proof {
            let sub = tbl.subrange(i as int, n as int);
            assert(sub[0] == tbl[i as int]);
            assert(sub.subrange(1, sub.len() as int) =~= tbl.subrange(i + 1, n as int));
        }
        if str_eq(docs[i].0.as_str(), word) {
            return Some(docs[i].1.as_str().to_owned());
        }
        i = i + 1;
    }
    None
}

} // verus!
