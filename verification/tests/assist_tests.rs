use vue_assist::assist::{
    compute_backspace_edit, compute_block_selection, compute_func_enhance_text,
};

#[test]
fn test_block_select_js() {
    let lines = vec![
        "function test() {".to_string(),
        "  const x = 1".to_string(),
        "  const y = 2".to_string(),
        "}".to_string(),
    ];
    let result = compute_block_selection(&lines, 1, 5);
    assert!(result.is_some());
    let range = result.unwrap();
    assert_eq!(range.start_line, 1);
    assert_eq!(range.end_line, 3);
}

#[test]
fn test_backspace_pair() {
    let lines = vec!["const x = {}".to_string()];
    let result = compute_backspace_edit(&lines, 0, 11);
    assert!(result.is_some());
    let op = result.unwrap();
    assert_eq!(op.start_char, 10);
    assert_eq!(op.end_char, 12);
}

#[test]
fn test_backspace_empty_line() {
    let lines = vec!["line1".to_string(), "".to_string()];
    let result = compute_backspace_edit(&lines, 1, 0);
    // cursor_char is 0, should return None (beginning of line)
    assert!(result.is_none());
}

#[test]
fn backspace_pair_deletes_both_characters() {
    // "const x = {}" with the cursor between the braces: the edit removes
    // characters 10 to 12 and inserts nothing, leaving "const x = "
    let lines = vec!["const x = {}".to_string()];
    let op = compute_backspace_edit(&lines, 0, 11).unwrap();
    assert_eq!(op.start_line, 0);
    assert_eq!(op.start_char, 10);
    assert_eq!(op.end_line, 0);
    assert_eq!(op.end_char, 12);
    assert_eq!(op.text, "");
    let line = &lines[0];
    let edited: String = format!("{}{}", &line[..op.start_char as usize], &line[op.end_char as usize..]);
    assert_eq!(edited, "const x = ");
}

#[test]
fn backspace_blank_line_merges_upward() {
    let lines = vec!["line1".to_string(), "   ".to_string(), "line3".to_string()];
    let op = compute_backspace_edit(&lines, 1, 2).unwrap();
    assert_eq!(op.start_line, 0);
    assert_eq!(op.start_char, 5);
    assert_eq!(op.end_line, 1);
    assert_eq!(op.end_char, 3);
    assert_eq!(op.text, "");
}

#[test]
fn backspace_unindents_to_two_wide_stop() {
    let lines = vec!["    x".to_string()];
    let op = compute_backspace_edit(&lines, 0, 4).unwrap();
    assert_eq!(op.start_char, 2);
    assert_eq!(op.end_char, 4);
    // odd column deletes a single character
    let op2 = compute_backspace_edit(&lines, 0, 3).unwrap();
    assert_eq!(op2.start_char, 2);
    assert_eq!(op2.end_char, 3);
}

#[test]
fn backspace_none_when_no_rule_applies() {
    let lines = vec!["word".to_string()];
    assert!(compute_backspace_edit(&lines, 0, 3).is_none());
}

#[test]
fn block_select_innermost_pair() {
    // the cursor strictly inside the inner pair selects exactly its interior
    let lines = vec!["a{b{c}d}e".to_string()];
    let range = compute_block_selection(&lines, 0, 5).unwrap();
    assert_eq!(range.start_line, 0);
    assert_eq!(range.start_char, 4);
    assert_eq!(range.end_line, 0);
    assert_eq!(range.end_char, 5);
}

#[test]
fn block_select_widens_strictly() {
    // re-invoking just outside the previous selection returns the strictly
    // larger enclosing pair
    let lines = vec!["a{b{c}d}e".to_string()];
    let inner = compute_block_selection(&lines, 0, 5).unwrap();
    let outer = compute_block_selection(&lines, 0, (inner.end_char + 1) as usize).unwrap();
    assert_eq!(outer.start_char, 2);
    assert_eq!(outer.end_char, 7);
    assert!(outer.start_char < inner.start_char);
    assert!(outer.end_char > inner.end_char);
}

#[test]
fn block_select_none_without_structure() {
    let lines = vec!["plain words only".to_string()];
    assert!(compute_block_selection(&lines, 0, 4).is_none());
}

#[test]
fn block_select_markup_tag_body() {
    let lines = vec![
        "<div>".to_string(),
        "  <span>x</span>".to_string(),
        "</div>".to_string(),
    ];
    let range = compute_block_selection(&lines, 0, 0).unwrap();
    assert_eq!(range.start_line, 1);
    assert_eq!(range.start_char, 0);
    assert_eq!(range.end_line, 2);
    assert_eq!(range.end_char, 0);
}

#[test]
fn block_select_line_chain() {
    let lines = vec![
        "value".to_string(),
        "  .map(f)".to_string(),
        "  .filter(g)".to_string(),
        "done".to_string(),
    ];
    let range = compute_block_selection(&lines, 1, 3).unwrap();
    assert_eq!(range.start_line, 0);
    assert_eq!(range.end_line, 3);
}

#[test]
fn enhance_after_open_brace() {
    let lines = vec!["foo {".to_string()];
    let r = compute_func_enhance_text(&lines, 0, "  ").unwrap();
    assert_eq!(r.insert_text, "\n  ");
    assert_eq!(r.cursor_line, 1);
    assert_eq!(r.cursor_char, 2);
    assert_eq!(r.action_type, "insert");
}

#[test]
fn enhance_method_template() {
    let lines = vec!["  fetchData".to_string()];
    let r = compute_func_enhance_text(&lines, 0, "  ").unwrap();
    assert_eq!(r.insert_text, "fetchData() {\n    \n  },");
    assert_eq!(r.cursor_line, 1);
    assert_eq!(r.cursor_char, 4);
    assert_eq!(r.action_type, "snippet");
}

#[test]
fn enhance_async_method_template() {
    let lines = vec!["async fetchData".to_string()];
    let r = compute_func_enhance_text(&lines, 0, "  ").unwrap();
    assert_eq!(r.insert_text, "async fetchData() {\n  \n},");
    assert_eq!(r.action_type, "snippet");
}

#[test]
fn enhance_none_on_plain_statement() {
    let lines = vec!["let x = 1;".to_string()];
    assert!(compute_func_enhance_text(&lines, 0, "  ").is_none());
}

#[test]
fn block_select_multi_line_body() {
    let lines = vec![
        "start {".to_string(),
        "  body".to_string(),
        "}".to_string(),
    ];
    let range = compute_block_selection(&lines, 1, 2).unwrap();
    assert_eq!(range.start_line, 1);
    assert_eq!(range.start_char, 0);
    assert_eq!(range.end_line, 2);
    assert_eq!(range.end_char, 0);
}

#[test]
fn block_select_at_line_start_uses_previous_lines() {
    let lines = vec!["{".to_string(), "x".to_string(), "}".to_string()];
    let range = compute_block_selection(&lines, 1, 0).unwrap();
    assert_eq!(range.start_line, 1);
    assert_eq!(range.end_line, 2);
}
