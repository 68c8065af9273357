//! Hover documentation for the element framework tags: a small built-in
//! starter set written for this crate, not a full catalogue.

use vstd::prelude::*;

verus! {

/// The hover-document table: tag name to its documentation text.
pub open spec fn spec_element_documents() -> Seq<(Seq<char>, Seq<char>)> {
    seq![
        ("el-button"@, "element button component: type, size, plain, round, circle"@),
        ("el-row"@, "element grid row: gutter, type, justify, align, tag"@),
        ("el-col"@, "element grid column: span, offset, push, pull"@),
        ("el-input"@, "element input component: v-model, placeholder, clearable"@),
        ("el-select"@, "element select component: v-model, multiple, filterable"@),
        ("el-table"@, "element table component: data, stripe, border, height"@),
    ]
}

/// The hover-document table for the element frameworks.
pub fn get_element_ui_documents() -> (r: Vec<(String, String)>)
    ensures
        crate::framework_data::str_table_view(r@) == spec_element_documents(),
{
    let mut out: Vec<(String, String)> = Vec::new();
    out.push(
        (
            "el-button".to_owned(),
            "element button component: type, size, plain, round, circle".to_owned(),
        ),
    );
    out.push(
        ("el-row".to_owned(), "element grid row: gutter, type, justify, align, tag".to_owned()),
    );
    out.push(("el-col".to_owned(), "element grid column: span, offset, push, pull".to_owned()));
    out.push(
        (
            "el-input".to_owned(),
            "element input component: v-model, placeholder, clearable".to_owned(),
        ),
    );
    out.push(
        (
            "el-select".to_owned(),
            "element select component: v-model, multiple, filterable".to_owned(),
        ),
    );
    out.push(
        ("el-table".to_owned(), "element table component: data, stripe, border, height".to_owned()),
    );
    proof {
        assert(crate::framework_data::str_table_view(out@) =~~= spec_element_documents());
    }
    out
}

} // verus!
