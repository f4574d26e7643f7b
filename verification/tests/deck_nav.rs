//! The deck and the navigation state machine, exercised end to end.

use slides::{
    text, Color, ElementColor, HAlign, InputKey, Palette, RenderNode, Show, ShowError, Slide,
    SlideMeta, Viewer,
};

fn palette() -> Palette {
    Palette {
        primary: Color::new(255, 0, 0, 255),
        on_surface: Color::new(240, 240, 240, 255),
    }
}

fn slide(path: &str, next: &str, body: &str) -> Slide {
    Slide::new(SlideMeta::new(path).with_next_slide(next), text(body))
}

fn abc_show() -> Show {
    Show::default()
        .with(slide("a", "b", "alpha"))
        .with(slide("b", "c", "beta"))
        .with(slide("c", "", "gamma"))
}

#[test]
fn resolve_returns_added_slide() {
    let show = abc_show();
    let found = show.resolve("b").unwrap();
    assert_eq!(found.meta.path(), "b");
    assert_eq!(found.meta.index, 1);
}

#[test]
fn resolve_after_overwrite_returns_new_slide() {
    let show = abc_show().with(slide("b", "a", "beta prime"));
    let found = show.resolve("b").unwrap();
    match &found.contents.kind {
        slides::ElementKind::Text(t) => assert_eq!(t.0, "beta prime"),
        _ => panic!("expected text contents"),
    }
    // Other paths resolve as before the overwrite.
    assert_eq!(show.resolve("a").unwrap().meta.index, 0);
    assert_eq!(show.resolve("c").unwrap().meta.index, 2);
}

#[test]
fn resolve_missing_is_unknown_slide() {
    let show = abc_show();
    assert_eq!(show.resolve("missing").unwrap_err(), ShowError::UnknownSlide);
    let empty = Show::default();
    assert_eq!(empty.resolve("a").unwrap_err(), ShowError::UnknownSlide);
}

#[test]
fn first_slide_stays_entry_point() {
    let show = abc_show();
    assert_eq!(show.first_slide, "a");
    // Later additions and overwrites leave the entry point alone.
    let show = show.with(slide("z", "", "zeta")).with(slide("a", "", "alpha prime"));
    assert_eq!(show.first_slide, "a");
}

#[test]
fn overwrite_assigns_index_from_current_count() {
    // Overwriting does not renumber, so the overwriting slide's index is
    // taken from the current count and may collide with an existing index.
    let show = abc_show().with(slide("a", "b", "alpha prime"));
    assert_eq!(show.resolve("a").unwrap().meta.index, 3);
    assert_eq!(show.resolve("b").unwrap().meta.index, 1);
}

#[test]
fn advance_with_empty_next_is_consumed_noop() {
    let mut viewer = Viewer::new(abc_show(), palette());
    // Nothing has been materialized: `next` is empty.
    let handled = viewer.handle_key(&InputKey::ArrowRight, true, true);
    assert!(handled);
    assert_eq!(viewer.current, "a");
    assert!(viewer.history.is_empty());
}

#[test]
fn modifier_suppresses_action() {
    let mut viewer = Viewer::new(abc_show(), palette());
    viewer.render_current();
    let handled = viewer.handle_key(&InputKey::ArrowRight, false, true);
    assert!(!handled);
    assert_eq!(viewer.current, "a");
}

#[test]
fn release_is_consumed_without_transition() {
    let mut viewer = Viewer::new(abc_show(), palette());
    viewer.render_current();
    let handled = viewer.handle_key(&InputKey::Space, true, false);
    assert!(handled);
    assert_eq!(viewer.current, "a");
}

#[test]
fn character_keys_navigate() {
    let mut viewer = Viewer::new(abc_show(), palette());
    viewer.render_current();
    assert!(viewer.handle_key(&InputKey::Character('n'), true, true));
    assert_eq!(viewer.current, "b");
    viewer.render_current();
    assert!(viewer.handle_key(&InputKey::Character('l'), true, true));
    assert_eq!(viewer.current, "c");
    assert!(viewer.handle_key(&InputKey::Character('p'), true, true));
    assert_eq!(viewer.current, "b");
    assert!(viewer.handle_key(&InputKey::Character('h'), true, true));
    assert_eq!(viewer.current, "a");
    assert!(!viewer.handle_key(&InputKey::Character('x'), true, true));
    assert!(!viewer.handle_key(&InputKey::Other, true, true));
}

#[test]
fn navigation_scenario_abc() {
    let mut viewer = Viewer::new(abc_show(), palette());
    assert_eq!(viewer.current, "a");

    viewer.render_current();
    viewer.advance();
    assert_eq!(viewer.current, "b");

    viewer.render_current();
    viewer.advance();
    assert_eq!(viewer.current, "c");
    assert_eq!(viewer.history, vec!["a".to_string(), "b".to_string()]);

    // "c" declares no successor: advancing again is a no-op.
    viewer.render_current();
    viewer.advance();
    assert_eq!(viewer.current, "c");
    assert_eq!(viewer.history.len(), 2);

    viewer.retreat();
    assert_eq!(viewer.current, "b");
    viewer.retreat();
    assert_eq!(viewer.current, "a");
    assert!(viewer.history.is_empty());

    // Retreating on an empty history is a no-op.
    viewer.retreat();
    assert_eq!(viewer.current, "a");
}

#[test]
fn render_writes_exactly_the_declared_successor() {
    let mut viewer = Viewer::new(abc_show(), palette());
    viewer.render_current();
    assert_eq!(viewer.next, "b");
    // A slide with no declared successor writes the empty string.
    viewer.advance();
    viewer.render_current();
    viewer.advance();
    viewer.render_current();
    assert_eq!(viewer.current, "c");
    assert_eq!(viewer.next, "");
}

#[test]
fn present_returns_node_and_successor() {
    let s = slide("a", "b", "alpha");
    let context = slides::Context {
        align: HAlign::Fill,
        color: ElementColor::Color(Color::new(1, 2, 3, 4)),
        theme: palette(),
        slide_index: 0,
        slide_count: 1,
    };
    let (node, successor) = s.present(&context);
    assert_eq!(successor, "b");
    match node {
        RenderNode::Text { content, .. } => assert_eq!(content, "alpha"),
        _ => panic!("expected a text node"),
    }
}

#[test]
fn unknown_slide_renders_fallback_with_path() {
    let mut viewer = Viewer::new(abc_show(), palette());
    viewer.current = "missing".to_string();
    viewer.next = "b".to_string();
    let node = viewer.render_current();
    match node {
        RenderNode::Aligned { align, content } => {
            assert_eq!(align, HAlign::Center);
            match *content {
                RenderNode::Text { content, .. } => {
                    assert_eq!(content, "unknown slide: missing");
                },
                _ => panic!("expected a text fallback"),
            }
        },
        _ => panic!("expected a centered fallback"),
    }
    // The successor cell keeps its previous value.
    assert_eq!(viewer.next, "b");
}
