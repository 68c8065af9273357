use vue_assist::definition::{
    find_in_file, get_definition_position, resolve_file_candidates,
};

#[test]
fn test_get_definition_position() {
    assert_eq!(
        get_definition_position("import Vue from 'vue'"),
        Some("vue".to_string())
    );
    assert_eq!(
        get_definition_position("import { ref } from 'vue'"),
        Some("vue".to_string())
    );
    assert_eq!(
        get_definition_position("const x = require('lodash')"),
        Some("lodash".to_string())
    );
    assert_eq!(get_definition_position("const x = 1"), None);
}

#[test]
fn test_find_in_file() {
    let lines = vec![
        "<template>".to_string(),
        "  <div>{{ message }}</div>".to_string(),
        "</template>".to_string(),
        "<script>".to_string(),
        "export default {".to_string(),
        "  data() {".to_string(),
        "    return {".to_string(),
        "      message: 'hello'".to_string(),
        "    }".to_string(),
        "  }".to_string(),
        "}".to_string(),
        "</script>".to_string(),
    ];
    let result = find_in_file(&lines, "message", "\"");
    assert!(result.is_some());
    let loc = result.unwrap();
    assert_eq!(loc.line, 7);
}

#[test]
fn definition_position_variants() {
    assert_eq!(
        get_definition_position("import 'normalize.css';"),
        Some("normalize.css".to_string())
    );
    assert_eq!(
        get_definition_position("const page = import('./page.vue')"),
        Some("./page.vue".to_string())
    );
    assert_eq!(get_definition_position("import x from ''"), None);
}

#[test]
fn definition_position_tries_every_occurrence() {
    // a first keyword occurrence that completes no shape does not end the
    // search: the later occurrences are tried too
    assert_eq!(
        get_definition_position("import; import a from 'b'"),
        Some("b".to_string())
    );
    assert_eq!(
        get_definition_position("x = require('a') + require;"),
        Some("a".to_string())
    );
}

#[test]
fn hidden_file_with_second_dot_has_extension() {
    // in ".a.b" the second dot marks an extension: only one candidate
    let c = resolve_file_candidates("/d/x.vue", ".a.b", "", false);
    assert_eq!(c.len(), 1);
    assert_eq!(c[0], "/d/.a.b");
}

#[test]
fn two_line_data_block_lookup() {
    // identifier lookup inside `data() { return { message: 'x' } }` split
    // over two lines returns the line holding the name, one past the match
    let lines = vec![
        "<script>".to_string(),
        "data() {".to_string(),
        "  return { message: 'x' } }".to_string(),
        "</script>".to_string(),
    ];
    let loc = find_in_file(&lines, "message", "\"").unwrap();
    assert_eq!(loc.line, 2);
    assert_eq!(loc.character, 11 + 7);
    assert_eq!(loc.file_path, "");
}

#[test]
fn component_mode_matches_case_insensitively() {
    let lines = vec![
        "<script>".to_string(),
        "import MyTag from './MyTag.vue'".to_string(),
        "export default {".to_string(),
        "</script>".to_string(),
    ];
    let loc = find_in_file(&lines, "my-tag", "<").unwrap();
    assert_eq!(loc.file_path, "./MyTag.vue");
    assert_eq!(loc.line, 1);
    assert_eq!(loc.character, 0);
}

#[test]
fn component_mode_stops_at_first_section() {
    let lines = vec![
        "<script>".to_string(),
        "data() {".to_string(),
        "import LateTag from './LateTag.vue'".to_string(),
        "</script>".to_string(),
    ];
    assert!(find_in_file(&lines, "late-tag", "<").is_none());
}

#[test]
fn find_in_file_absent_identifier() {
    let lines = vec![
        "<script>".to_string(),
        "data() {".to_string(),
        "</script>".to_string(),
    ];
    assert!(find_in_file(&lines, "missing", "\"").is_none());
}

#[test]
fn resolve_candidates_with_extension() {
    let c = resolve_file_candidates("/a/b.vue", "./c.css", "/root", false);
    assert_eq!(c.len(), 1);
    assert_eq!(c[0], "/a/./c.css");
}

#[test]
fn resolve_candidates_without_extension() {
    let c = resolve_file_candidates("/a/b.vue", "widget", "/root", false);
    assert_eq!(c.len(), 12);
    assert_eq!(c[0], "/a/widget.vue");
    assert_eq!(c[1], "/a/widget/index.vue");
    assert_eq!(c[2], "/a/widget.js");
}

#[test]
fn resolve_candidates_absolute_uses_root() {
    let c = resolve_file_candidates("/a/b.vue", "lib/widget.js", "/root", true);
    assert_eq!(c.len(), 1);
    assert_eq!(c[0], "/root/lib/widget.js");
}
