//! Structural text-analysis engine for editor-assist features on documents
//! that mix markup and script sections: block selection by bracket, tag or
//! line-chain matching, smart backspace, in-file symbol lookup, word
//! extraction, and the framework metadata tables that completion and hover
//! are served from.
//!
//! Every operation works on an immutable snapshot of the document's lines and
//! a cursor position, runs in time linear in the document size, and returns
//! an absent result instead of raising when no structure applies.

pub mod assist;
pub mod completion;
pub mod definition;
pub mod framework_data;
pub mod hover;
pub mod selection_laws;
pub mod text;
pub mod traverse;
pub mod util;

use vstd::prelude::*;

use crate::text::{contains_sub, find_sub};

verus! {

/// The frameworks a package manifest names, in the fixed detection order.
pub open spec fn spec_init_frameworks(s: Seq<char>) -> Seq<Seq<char>> {
    (if contains_sub(s, "element-plus"@) {
        seq!["element-plus"@]
    } else {
        Seq::<Seq<char>>::empty()
    }) + (if contains_sub(s, "element-ui"@) {
        seq!["element-ui"@]
    } else {
        Seq::<Seq<char>>::empty()
    }) + (if contains_sub(s, "ant-design-vue"@) {
        seq!["ant-design-vue"@]
    } else {
        Seq::<Seq<char>>::empty()
    })
}

/// Detect the supported component frameworks a package manifest names.
pub fn init_frameworks(package_json_content: String) -> (r: Vec<String>)
    ensures
        r@.map_values(|s: String| s@) == spec_init_frameworks(package_json_content@),
{
    let content: &str = package_json_content.as_str();
    let mut frameworks: Vec<String> = Vec::new();
    if find_sub(content, "element-plus").is_some() {
        frameworks.push("element-plus".to_owned());
    }
    if find_sub(content, "element-ui").is_some() {
        frameworks.push("element-ui".to_owned());
    }
    if find_sub(content, "ant-design-vue").is_some() {
        frameworks.push("ant-design-vue".to_owned());
    }
    proof {
        assert(frameworks@.map_values(|s: String| s@) =~~= spec_init_frameworks(
            package_json_content@,
        ));
    }
    frameworks
}

} // verus!
