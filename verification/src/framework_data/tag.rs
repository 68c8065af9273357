//! Markup tag snippets for the element frameworks: a small built-in
//! starter set written for this crate, not a full catalogue.

use vstd::prelude::*;

verus! {

/// The tag snippet table: tag name to expansion, indented with `ts`.
pub open spec fn spec_element_tags(ts: Seq<char>) -> Seq<(Seq<char>, Seq<char>)> {
    seq![
        ("el-row"@, "<el-row :gutter=\"$1\">$2</el-row>$0"@),
        ("el-col"@, "<el-col :span=\"$1\">$2</el-col>$0"@),
        ("el-button"@, "<el-button type=\"$1\">$2</el-button>$0"@),
        ("el-input"@, "<el-input v-model=\"$1\" placeholder=\"$2\"></el-input>$0"@),
        (
            "el-select"@,
            "<el-select v-model=\"$1\">\n"@ + ts
                + "<el-option label=\"$2\" value=\"$3\"></el-option>\n"@ + "</el-select>$0"@,
        ),
        (
            "el-table"@,
            "<el-table :data=\"$1\">\n"@ + ts
                + "<el-table-column prop=\"$2\" label=\"$3\"></el-table-column>\n"@
                + "</el-table>$0"@,
        ),
    ]
}

/// The tag snippet table for the element frameworks.
pub fn get_element_ui_tags(ts: &str) -> (r: Vec<(String, String)>)
    ensures
        crate::framework_data::str_table_view(r@) == spec_element_tags(ts@),
{
    let mut out: Vec<(String, String)> = Vec::new();
    out.push(("el-row".to_owned(), "<el-row :gutter=\"$1\">$2</el-row>$0".to_owned()));
    out.push(("el-col".to_owned(), "<el-col :span=\"$1\">$2</el-col>$0".to_owned()));
    out.push(("el-button".to_owned(), "<el-button type=\"$1\">$2</el-button>$0".to_owned()));
    out.push(
        (
            "el-input".to_owned(),
            "<el-input v-model=\"$1\" placeholder=\"$2\"></el-input>$0".to_owned(),
        ),
    );
    let mut sel = "<el-select v-model=\"$1\">\n".to_owned();
    sel.append(ts);
    sel.append("<el-option label=\"$2\" value=\"$3\"></el-option>\n");
    sel.append("</el-select>$0");
    out.push(("el-select".to_owned(), sel));
    let mut tbl = "<el-table :data=\"$1\">\n".to_owned();
    tbl.append(ts);
    tbl.append("<el-table-column prop=\"$2\" label=\"$3\"></el-table-column>\n");
    tbl.append("</el-table>$0");
    out.push(("el-table".to_owned(), tbl));
    proof {
        assert(crate::framework_data::str_table_view(out@) =~~= spec_element_tags(ts@));
    }
    out
}

} // verus!
