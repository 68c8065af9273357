use vue_assist::traverse::{traverse_add, VueFile};
use vue_assist::util::{get_current_word, get_relative_path, get_word, win_root_path_handle};

#[test]
fn test_get_current_word() {
    assert_eq!(get_current_word("el-button type", 14), "type");
    assert_eq!(get_current_word("import Vue", 10), "Vue");
    assert_eq!(get_current_word("  hello", 7), "hello");
}

#[test]
fn test_win_root_path_handle() {
    assert_eq!(win_root_path_handle("/c:/test", true), "c:/test");
    assert_eq!(win_root_path_handle("c:/test", true), "c:/test");
    assert_eq!(win_root_path_handle("/c:/test", false), "/c:/test");
    assert_eq!(win_root_path_handle("", false), "");
}

#[test]
fn test_get_word() {
    let delimiters: Vec<String> = vec![" ", "<", ">", "\""].iter().map(|s| s.to_string()).collect();
    let result = get_word("  <el-button type=\"primary\">", 5, &delimiters);
    assert_eq!(result.select_text, "el-button");
    assert_eq!(result.start_text, "<");
}

#[test]
fn get_word_without_left_delimiter() {
    let delimiters: Vec<String> = vec![" ".to_string()];
    let result = get_word("hello", 3, &delimiters);
    assert_eq!(result.select_text, "hello");
    assert_eq!(result.start_text, "");
}

#[test]
fn current_word_empty_at_line_start() {
    assert_eq!(get_current_word("abc", 0), "");
}

#[test]
fn relative_path_between_documents() {
    let rel = get_relative_path("/a/b/c.vue", "/a/d/e.vue", false);
    assert_eq!(rel, "./../d/e.vue");
}

#[test]
fn relative_path_same_directory() {
    let rel = get_relative_path("/a/b/c.vue", "/a/b/f.vue", false);
    assert_eq!(rel, "./f.vue");
}

#[test]
fn test_traverse_add_vue() {
    let mut files = Vec::new();
    traverse_add(
        "MyComponent.vue",
        "src/components/MyComponent.vue",
        &mut files,
        "",
        "",
        ".vue",
        "",
    );
    assert_eq!(files.len(), 1);
    assert_eq!(files[0].name, "MyComponent");
    assert_eq!(files[0].path, "src/components/MyComponent.vue");
}

#[test]
fn test_traverse_add_index() {
    let mut files = Vec::new();
    traverse_add(
        "index.vue",
        "src/components/Header/index.vue",
        &mut files,
        "",
        "",
        ".vue",
        "",
    );
    assert_eq!(files.len(), 2);
    assert_eq!(files[0].name, "index");
    assert_eq!(files[1].name, "Header");
}

#[test]
fn test_traverse_add_with_search() {
    let mut files = Vec::new();
    traverse_add(
        "MyComponent.vue",
        "src/components/MyComponent.vue",
        &mut files,
        "",
        "",
        ".vue",
        "Button",
    );
    assert_eq!(files.len(), 0); // "Button" not in path

    traverse_add(
        "MyComponent.vue",
        "src/components/MyComponent.vue",
        &mut files,
        "",
        "",
        ".vue",
        "MyComponent",
    );
    assert_eq!(files.len(), 1);
}

#[test]
fn traverse_add_applies_prefix_alias() {
    let mut files: Vec<VueFile> = Vec::new();
    traverse_add(
        "Btn.vue",
        "src/components/Btn.vue",
        &mut files,
        "@/",
        "src/",
        ".vue",
        "",
    );
    assert_eq!(files[0].path, "@/components/Btn.vue");
}

#[test]
fn get_word_cursor_at_end() {
    let delimiters: Vec<String> = vec![" ".to_string()];
    let result = get_word("one two", 7, &delimiters);
    assert_eq!(result.select_text, "two");
    assert_eq!(result.start_text, " ");
}
