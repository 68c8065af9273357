//! Attributes valid on every tag of the element frameworks.

use vstd::prelude::*;

use crate::framework_data::AttrInfo;

verus! {

/// The global attribute table.
pub open spec fn spec_element_global_attributes() -> Seq<
    (Seq<char>, (Seq<char>, Seq<char>, Seq<Seq<char>>)),
> {
    seq![("v-loading"@, ("attribute"@, "el-loading"@, seq!["string"@]))]
}

/// The global attribute table for the element frameworks.
pub fn get_element_ui_global_attributes() -> (r: Vec<(String, AttrInfo)>)
    ensures
        crate::framework_data::attr_table_view(r@) == spec_element_global_attributes(),
{
    let mut out: Vec<(String, AttrInfo)> = Vec::new();
    let mut values: Vec<String> = Vec::new();
    values.push("string".to_owned());
    out.push(
        (
            "v-loading".to_owned(),
            AttrInfo {
                attr_type: "attribute".to_owned(),
                description: "el-loading".to_owned(),
                values,
            },
        ),
    );
    proof {
        assert(crate::framework_data::attr_table_view(out@) =~~= spec_element_global_attributes());
    }
    out
}

} // verus!
