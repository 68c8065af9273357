//! Script snippets that hold for every framework set: a small built-in
//! starter set written for this crate.

use vstd::prelude::*;

verus! {

/// The script snippet table, indented with `ts`.
pub open spec fn spec_snippets_js(ts: Seq<char>) -> Seq<(Seq<char>, Seq<char>)> {
    seq![
        ("vdata"@, "data() {\n"@ + ts + "return {\n"@ + ts + ts + "$1\n"@ + ts + "}\n"@ + "}"@),
        ("vmethod"@, "${1:name}() {\n"@ + ts + "$2\n"@ + "},"@),
        ("vcomputed"@, "computed: {\n"@ + ts + "${1:name}() {\n"@ + ts + ts + "return $2\n"@ + ts
            + "}\n"@ + "},"@),
        ("vwatcher"@, "${1:name}(newVal, oldVal) {\n"@ + ts + "$2\n"@ + "},"@),
    ]
}

/// The script snippet table.
pub fn get_snippets(ts: &str) -> (r: Vec<(String, String)>)
    ensures
        crate::framework_data::str_table_view(r@) == spec_snippets_js(ts@),
{
    let mut out: Vec<(String, String)> = Vec::new();
    let mut d = "data() {\n".to_owned();
    d.append(ts);
    d.append("return {\n");
    d.append(ts);
    d.append(ts);
    d.append("$1\n");
    d.append(ts);
    d.append("}\n");
    d.append("}");
    out.push(("vdata".to_owned(), d));
    let mut m = "${1:name}() {\n".to_owned();
    m.append(ts);
    m.append("$2\n");
    m.append("},");
    out.push(("vmethod".to_owned(), m));
    let mut c = "computed: {\n".to_owned();
    c.append(ts);
    c.append("${1:name}() {\n");
    c.append(ts);
    c.append(ts);
    c.append("return $2\n");
    c.append(ts);
    c.append("}\n");
    c.append("},");
    out.push(("vcomputed".to_owned(), c));
    let mut w = "${1:name}(newVal, oldVal) {\n".to_owned();
    w.append(ts);
    w.append("$2\n");
    w.append("},");
    out.push(("vwatcher".to_owned(), w));
    proof {
        assert(crate::framework_data::str_table_view(out@) =~~= spec_snippets_js(ts@));
    }
    out
}

} // verus!
