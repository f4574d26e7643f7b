//! The code view: line splitting, highlighting through syntect, the cache
//! rule, and span layout.

use slides::{code, split_lines, CodeError, CodeView, ElementKind};

#[test]
fn split_lines_keeps_endings() {
    let lines = split_lines("alpha\nbeta\n");
    assert_eq!(lines, vec!["alpha\n".to_string(), "beta\n".to_string()]);
    let lines = split_lines("alpha\nbeta");
    assert_eq!(lines, vec!["alpha\n".to_string(), "beta".to_string()]);
    let lines = split_lines("");
    assert!(lines.is_empty());
    let lines = split_lines("\n\n");
    assert_eq!(lines, vec!["\n".to_string(), "\n".to_string()]);
}

#[test]
fn code_constructor_carries_lang_and_source() {
    let e = code("rs", "fn main() {}\n");
    match e.kind {
        ElementKind::Code { lang, source } => {
            assert_eq!(lang, "rs");
            assert_eq!(source, "fn main() {}\n");
        },
        _ => panic!("expected a code element"),
    }
}

#[test]
fn highlight_preserves_source_text() {
    let source = "pub fn double(x: u32) -> u32 {\n    x * 2\n}\n";
    let mut view = CodeView::with_default_sets("rs", source).unwrap();
    view.highlight(14).unwrap();
    assert_eq!(view.cached_text_size, 14);
    assert_eq!(view.lines.len(), 3);
    // The styled spans of all lines concatenate back to exactly the source.
    let mut rebuilt = String::new();
    for line in &view.lines {
        for span in line {
            rebuilt.push_str(&span.text);
        }
    }
    assert_eq!(rebuilt, source);
    // The highlighter styled the keyword differently from the whole line.
    let distinct_colors = view.lines[0]
        .iter()
        .map(|s| (s.color.red, s.color.green, s.color.blue))
        .collect::<std::collections::BTreeSet<_>>();
    assert!(distinct_colors.len() > 1);
}

#[test]
fn highlight_caches_by_text_size() {
    let mut view = CodeView::with_default_sets("rs", "let a = 1;\n").unwrap();
    view.highlight(10).unwrap();
    let lines_before = view.lines.len();
    // Same size: the cache is kept.
    view.highlight(10).unwrap();
    assert_eq!(view.cached_text_size, 10);
    assert_eq!(view.lines.len(), lines_before);
    // A new size re-highlights.
    view.highlight(24).unwrap();
    assert_eq!(view.cached_text_size, 24);
    assert_eq!(view.lines.len(), lines_before);
}

#[test]
fn highlight_empty_source_is_noop() {
    let mut view = CodeView::with_default_sets("rs", "").unwrap();
    view.highlight(12).unwrap();
    assert!(view.lines.is_empty());
    assert_eq!(view.cached_text_size, 0);
}

#[test]
fn unknown_language_is_reported() {
    let mut view = CodeView::with_default_sets("nosuchlanguage", "x\n").unwrap();
    assert_eq!(view.highlight(12).unwrap_err(), CodeError::UnknownLanguage);
    // The view is left untouched.
    assert!(view.lines.is_empty());
    assert_eq!(view.cached_text_size, 0);
}

#[test]
fn measure_lays_spans_out() {
    let mut view = CodeView::with_default_sets("rs", "ab\ncd\n").unwrap();
    view.highlight(12).unwrap();
    let widths = vec![vec![3u64, 4u64], vec![10u64]];
    let offsets = view.measure(&widths, 2);
    assert_eq!(offsets, vec![vec![0, 3], vec![0]]);
    // Size: widest line by total height.
    assert_eq!(view.size, (10, 4));
    assert_eq!(view.line_height, 2);
}
