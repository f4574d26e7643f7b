//! Element builders, conversions, and the opaque-content kinds.

use slides::{
    classify_key, text, Action, Color, Context, Element, ElementColor, ElementKind, HAlign,
    InputKey, IntoSplitElement, LazyWidget, Palette, RenderNode, SlideMeta, SplitMeasurement,
};

fn context() -> Context {
    Context {
        align: HAlign::Fill,
        color: ElementColor::Color(Color::new(0, 0, 0, 255)),
        theme: Palette {
            primary: Color::new(1, 2, 3, 4),
            on_surface: Color::new(5, 6, 7, 8),
        },
        slide_index: 0,
        slide_count: 1,
    }
}

#[test]
fn new_element_has_no_overrides() {
    let e = Element::new(ElementKind::SlideIndexMarker);
    assert!(e.align.is_none());
    assert!(e.color.is_none());
    assert!(e.attrs.is_empty());
}

#[test]
fn alignment_builders_set_the_override() {
    assert_eq!(text("x").left_aligned().align, Some(HAlign::Left));
    assert_eq!(text("x").right_aligned().align, Some(HAlign::Right));
    assert_eq!(text("x").centered().align, Some(HAlign::Center));
    assert_eq!(text("x").fill().align, Some(HAlign::Fill));
    // The last override wins; the kind is untouched.
    let e = text("x").centered().left_aligned();
    assert_eq!(e.align, Some(HAlign::Left));
    assert!(matches!(e.kind, ElementKind::Text(_)));
}

#[test]
fn element_color_from_color() {
    let c = Color::new(10, 20, 30, 40);
    let ec: ElementColor = c.into();
    assert_eq!(ec, ElementColor::Color(c));
    let e = text("x").text_color(ec);
    assert_eq!(e.color, Some(ElementColor::Color(c)));
}

#[test]
fn slide_meta_accessors() {
    let meta = SlideMeta::new("intro");
    assert_eq!(meta.path(), "intro");
    assert_eq!(meta.next_slide, "");
    assert_eq!(meta.index, usize::MAX);
    let meta = meta.with_next_slide("outro");
    assert_eq!(meta.path(), "intro");
    assert_eq!(meta.next_slide, "outro");
}

#[test]
fn lazy_widget_wraps_a_builder() {
    let lazy = LazyWidget::new(|| "backend content".to_string());
    let builder = lazy.into_builder();
    assert_eq!(builder(), "backend content");
}

#[test]
fn opaque_kinds_carry_their_tokens() {
    let image = Element::new(ElementKind::Image { token: 7 }).materialize(&context());
    assert!(matches!(image, RenderNode::Image { token: 7 }));
    let lazy = Element::new(ElementKind::Lazy { token: 9 }).materialize(&context());
    assert!(matches!(lazy, RenderNode::Lazy { token: 9 }));
}

#[test]
fn into_split_element_defaults_to_expand() {
    let child = text("x").into_split_element();
    assert!(matches!(
        child.measurement,
        SplitMeasurement::Expand { weight: 1 }
    ));
    // A split child passes through unchanged.
    let again = child.into_split_element();
    assert!(matches!(
        again.measurement,
        SplitMeasurement::Expand { weight: 1 }
    ));
}

#[test]
fn key_classification() {
    assert_eq!(classify_key(&InputKey::ArrowRight, true), Some(Action::Next));
    assert_eq!(classify_key(&InputKey::Space, true), Some(Action::Next));
    assert_eq!(classify_key(&InputKey::Enter, true), Some(Action::Next));
    assert_eq!(classify_key(&InputKey::Character('l'), true), Some(Action::Next));
    assert_eq!(classify_key(&InputKey::Character('n'), true), Some(Action::Next));
    assert_eq!(classify_key(&InputKey::ArrowLeft, true), Some(Action::Previous));
    assert_eq!(classify_key(&InputKey::Backspace, true), Some(Action::Previous));
    assert_eq!(classify_key(&InputKey::Character('h'), true), Some(Action::Previous));
    assert_eq!(classify_key(&InputKey::Character('p'), true), Some(Action::Previous));
    assert_eq!(classify_key(&InputKey::Character('z'), true), None);
    assert_eq!(classify_key(&InputKey::Other, true), None);
    // Any held modifier suppresses the action.
    assert_eq!(classify_key(&InputKey::ArrowRight, false), None);
    assert_eq!(classify_key(&InputKey::Character('l'), false), None);
}
