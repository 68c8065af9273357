use vue_assist::completion::{
    extract_props_from_vue, get_attr_suggestions, get_attr_value_suggestions,
    get_close_tag, get_element_tag_label_suggestions, get_import_suggestion_items,
    get_js_tag_suggestions, get_tag_suggestions, is_close_tag_check, is_import_check,
    match_pre_attr_from_text, match_pre_tag_from_text, not_in_template, to_kebab_case,
};
use vue_assist::traverse::VueFile;

#[test]
fn test_is_close_tag() {
    assert!(is_close_tag_check("<div>"));
    assert!(!is_close_tag_check("<div/>"));
    assert!(!is_close_tag_check("<div"));
}

#[test]
fn test_get_close_tag() {
    assert_eq!(get_close_tag("<div>"), "div");
    assert_eq!(get_close_tag("<el-button type=\"primary\">"), "el-button");
}

#[test]
fn test_is_import() {
    assert!(is_import_check("import Vue from 'vue'"));
    assert!(is_import_check("  import { ref } from 'vue'"));
    assert!(!is_import_check("const x = 1"));
}

#[test]
fn test_to_kebab_case() {
    assert_eq!(to_kebab_case("myProp"), "my-prop");
    assert_eq!(to_kebab_case("userName"), "user-name");
    assert_eq!(to_kebab_case("name"), "name");
}

#[test]
fn test_get_tag_suggestions() {
    let frameworks = vec!["element-ui".to_string()];
    let suggestions = get_tag_suggestions(&frameworks, "  ", false);
    assert!(!suggestions.is_empty());
}

#[test]
fn close_tag_boundary_cases() {
    // a just-typed `>` inside a quoted attribute value is no boundary
    assert!(is_close_tag_check("<div onclick=\"a\">"));
    assert!(!is_close_tag_check("<div onclick=\"a>"));
    assert!(!is_close_tag_check("<br/>"));
}

#[test]
fn close_tag_name_skips_tag_inside_attribute_value() {
    // the walk is leftmost and non-overlapping: the tag quoted inside the
    // attribute value is part of the outer match, not a match of its own
    assert_eq!(get_close_tag("<a b=\"<c>\">"), "a");
}

#[test]
fn pre_attr_name_never_starts_with_dash() {
    assert_eq!(match_pre_attr_from_text("<x --foo='v"), Some("foo".to_string()));
}

#[test]
fn close_tag_name_excludes_void_tags() {
    assert_eq!(get_close_tag("<br>"), "div");
    assert_eq!(get_close_tag("no tag at all"), "div");
}

#[test]
fn pre_tag_match_finds_containing_tag() {
    let m = match_pre_tag_from_text("text <div cls").unwrap();
    assert_eq!(m.text, "div");
    assert_eq!(m.offset, 6);
}

#[test]
fn pre_tag_match_stops_after_closed_tag() {
    assert!(match_pre_tag_from_text("<div a=\"1\"> text").is_none());
}

#[test]
fn pre_attr_match_single_quoted_value() {
    assert_eq!(
        match_pre_attr_from_text("<el-button type='pri"),
        Some("type".to_string())
    );
}

#[test]
fn pre_attr_match_none_after_complete_value() {
    assert!(match_pre_attr_from_text("<el-button type=\"pri").is_none());
}

#[test]
fn not_in_template_after_script_open() {
    let lines = vec![
        "<template>".to_string(),
        "<script>".to_string(),
        "code".to_string(),
    ];
    assert!(not_in_template(&lines, 2));
    assert!(!not_in_template(&lines, 0));
}

#[test]
fn tag_suggestions_include_snippets_first() {
    let frameworks = vec!["element-ui".to_string()];
    let suggestions = get_tag_suggestions(&frameworks, "  ", true);
    assert_eq!(suggestions[0].label, "vcomponent");
    assert_eq!(suggestions[0].sort_text, "01vcomponent");
    assert!(suggestions.iter().any(|s| s.label == "el-button"));
}

#[test]
fn js_tag_suggestions_carry_documentation() {
    let frameworks = vec!["element-ui".to_string()];
    let suggestions = get_js_tag_suggestions(&frameworks, "  ", false);
    assert_eq!(suggestions.len(), 19);
    let first = &suggestions[0];
    assert_eq!(first.label, "el-alert");
    assert_eq!(first.documentation, first.insert_text);
    assert!(suggestions.iter().any(|s| s.label == "reg-email"));
}

#[test]
fn attr_suggestions_split_by_kind() {
    let frameworks = vec!["element-ui".to_string()];
    let attrs = get_attr_suggestions("el-input", &frameworks, "  ", "");
    assert!(attrs.iter().any(|s| s.label == "placeholder" && s.kind == "property"));
    assert!(!attrs.iter().any(|s| s.label == "change"));
    let methods = get_attr_suggestions("el-input", &frameworks, "  ", "@ch");
    assert!(methods.iter().any(|s| s.label == "change" && s.kind == "method"));
    assert!(!methods.iter().any(|s| s.label == "placeholder"));
}

#[test]
fn attr_value_suggestions_prefer_tag_specific() {
    let frameworks = vec!["element-ui".to_string()];
    let values = get_attr_value_suggestions("el-row", "type", &frameworks, "  ");
    assert_eq!(values.len(), 1);
    assert_eq!(values[0].label, "flex");
    let globals = get_attr_value_suggestions("unknown-tag", "v-loading", &frameworks, "  ");
    assert_eq!(globals.len(), 1);
    assert_eq!(globals[0].label, "string");
}

#[test]
fn tag_label_suggestions_deduplicate() {
    let frameworks = vec!["element-ui".to_string()];
    let labels = get_element_tag_label_suggestions(&frameworks, "  ", "my-ext");
    assert_eq!(labels[0].label, "el-row");
    assert_eq!(labels[0].insert_text, "el-row$0></el-row>");
    assert_eq!(labels[0].detail, "my-ext");
}

#[test]
fn extract_props_and_emits() {
    let content = "<script>\nexport default {\n  props: {\n    myProp: String,\n    userName: { type: String }\n  },\n}\n</script>\nthis.$emit('change')";
    let suggestions = extract_props_from_vue(content);
    let labels: Vec<&str> = suggestions.iter().map(|s| s.label.as_str()).collect();
    assert_eq!(labels, vec!["my-prop", "user-name", "change"]);
    assert_eq!(suggestions[0].insert_text, ":my-prop=\"$0\"");
    assert_eq!(suggestions[2].insert_text, "@change=\"$0\"");
    assert_eq!(suggestions[2].kind, "method");
}

#[test]
fn import_suggestions_match_and_strip_ts() {
    let files = vec![
        VueFile { name: "Header".to_string(), path: "src/Header.vue".to_string() },
        VueFile { name: "util".to_string(), path: "src/util.ts".to_string() },
    ];
    let suggestions = get_import_suggestion_items("import Head", &files, "", "");
    assert_eq!(suggestions.len(), 1);
    assert_eq!(suggestions[0].insert_text, "${1:Header} from 'src/Header.vue'");
    let ts = get_import_suggestion_items("util", &files, "", "");
    assert_eq!(ts.len(), 1);
    assert_eq!(ts[0].insert_text, "${1:util} from 'src/util'");
}

#[test]
fn import_suggestions_empty_search() {
    let files = vec![VueFile { name: "A".to_string(), path: "a.vue".to_string() }];
    assert!(get_import_suggestion_items("   ", &files, "", "").is_empty());
}
