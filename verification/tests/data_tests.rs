use std::sync::Arc;

use vue_assist::framework_data::{
    get_cached_data, get_documents, get_tags, invalidate_cache, make_cache_key, CacheStore,
};
use vue_assist::hover::provide_hover_info;
use vue_assist::init_frameworks;

#[test]
fn test_framework_cache() {
    // --- Cache hit ---
    let mut store = CacheStore::new();
    let frameworks = vec!["element-ui".to_string()];
    let data1 = get_cached_data(&mut store, &frameworks, "  ");
    let data2 = get_cached_data(&mut store, &frameworks, "  ");
    assert!(
        Arc::ptr_eq(&data1, &data2),
        "second call should return same Arc (cache hit)"
    );

    // --- Cache invalidation ---
    invalidate_cache(&mut store);
    let data3 = get_cached_data(&mut store, &frameworks, "  ");
    assert!(
        !Arc::ptr_eq(&data1, &data3),
        "after invalidation, should be a new Arc"
    );
    assert_eq!(data1.key, data3.key, "keys should still match");

    // --- Cache key change (tab_size) ---
    let data4 = get_cached_data(&mut store, &frameworks, "    ");
    assert!(!Arc::ptr_eq(&data3, &data4), "different tab_size => cache miss");
    assert_ne!(data3.key, data4.key);

    // --- Cache key change (frameworks) ---
    let frameworks2 = vec!["element-plus".to_string()];
    let data5 = get_cached_data(&mut store, &frameworks2, "  ");
    assert_ne!(data4.key, data5.key, "different frameworks => different key");
}

#[test]
fn test_hover_existing_tag() {
    let frameworks = vec!["element-ui".to_string()];
    let result = provide_hover_info("el-button", &frameworks, "  ");
    assert!(result.is_some());
    assert!(result.unwrap().contains("element"));
}

#[test]
fn test_hover_unknown_tag() {
    let frameworks = vec!["element-ui".to_string()];
    let result = provide_hover_info("unknown-tag", &frameworks, "  ");
    assert!(result.is_none());
}

#[test]
fn cache_key_sorts_framework_names() {
    let a = make_cache_key(&vec!["element-ui".to_string(), "ant-design-vue".to_string()], "  ");
    let b = make_cache_key(&vec!["ant-design-vue".to_string(), "element-ui".to_string()], "  ");
    assert_eq!(a, b);
    assert_eq!(a, "ant-design-vue,element-ui|  ");
}

#[test]
fn tables_empty_without_matching_framework() {
    let frameworks = vec!["some-other".to_string()];
    assert!(get_tags(&frameworks, "  ").is_empty());
    assert!(get_documents(&frameworks, "  ").is_empty());
}

#[test]
fn tag_table_indents_with_tab_size() {
    let frameworks = vec!["element-plus".to_string()];
    let tags = get_tags(&frameworks, "    ");
    let select = tags.iter().find(|p| p.0 == "el-select").unwrap();
    assert!(select.1.contains("\n    <el-option"));
}

#[test]
fn init_frameworks_detects_in_order() {
    let content = "\"dependencies\": { \"ant-design-vue\": \"*\", \"element-ui\": \"2\" }";
    let fws = init_frameworks(content.to_string());
    assert_eq!(fws, vec!["element-ui".to_string(), "ant-design-vue".to_string()]);
    assert!(init_frameworks("{}".to_string()).is_empty());
}
