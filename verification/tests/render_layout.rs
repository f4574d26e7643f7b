//! Materialization, context propagation, and the split sizing rule.

use slides::{
    expand, expand_weighted, fit, group, h1, hr, hsplit, hstack, list, split_axis_sizes, stack,
    text, vr, vsplit, Color, Context, Element, ElementColor, ElementKind, HAlign, Orientation,
    Palette, RenderNode, SplitMeasurement,
};

fn palette() -> Palette {
    Palette {
        primary: Color::new(200, 30, 30, 255),
        on_surface: Color::new(250, 250, 250, 255),
    }
}

fn fill_context() -> Context {
    Context {
        align: HAlign::Fill,
        color: ElementColor::Color(Color::new(9, 9, 9, 255)),
        theme: palette(),
        slide_index: 3,
        slide_count: 7,
    }
}

#[test]
fn text_inherits_context_color() {
    let node = text("hello").materialize(&fill_context());
    match node {
        RenderNode::Text { content, color } => {
            assert_eq!(content, "hello");
            assert_eq!(color, Color::new(9, 9, 9, 255));
        },
        _ => panic!("expected a text node"),
    }
}

#[test]
fn color_override_propagates_and_stops() {
    let red = Color::new(255, 0, 0, 255);
    let blue = Color::new(0, 0, 255, 255);
    let tree = stack(vec![
        text("plain"),
        text("loud").text_color(ElementColor::Color(blue)),
    ])
    .text_color(ElementColor::Color(red));
    let node = tree.materialize(&fill_context());
    match node {
        RenderNode::Stack { orientation, children } => {
            assert_eq!(orientation, Orientation::Row);
            assert_eq!(children.len(), 2);
            match &children[0].node {
                RenderNode::Text { color, .. } => assert_eq!(*color, red),
                other => panic!("expected text, got {:?}", name_of(other)),
            }
            match &children[1].node {
                RenderNode::Text { color, .. } => assert_eq!(*color, blue),
                other => panic!("expected text, got {:?}", name_of(other)),
            }
        },
        _ => panic!("expected a stack"),
    }
}

fn name_of(n: &RenderNode) -> &'static str {
    match n {
        RenderNode::Text { .. } => "text",
        RenderNode::Label { .. } => "label",
        RenderNode::Image { .. } => "image",
        RenderNode::Lazy { .. } => "lazy",
        RenderNode::Code { .. } => "code",
        RenderNode::Delimiter { .. } => "delimiter",
        RenderNode::List { .. } => "list",
        RenderNode::Stack { .. } => "stack",
        RenderNode::Heading { .. } => "heading",
        RenderNode::Contained { .. } => "contained",
        RenderNode::Aligned { .. } => "aligned",
    }
}

#[test]
fn primary_color_resolves_against_theme() {
    let node = text("accent")
        .text_color(ElementColor::Primary)
        .materialize(&fill_context());
    match node {
        RenderNode::Text { color, .. } => assert_eq!(color, palette().primary),
        _ => panic!("expected a text node"),
    }
}

#[test]
fn alignment_override_wraps_node() {
    let node = text("x").centered().materialize(&fill_context());
    match node {
        RenderNode::Aligned { align, .. } => assert_eq!(align, HAlign::Center),
        _ => panic!("expected an alignment adapter"),
    }
    // Fill leaves the node unwrapped.
    let node = text("x").fill().materialize(&fill_context());
    assert!(matches!(node, RenderNode::Text { .. }));
}

#[test]
fn markers_project_context_fields() {
    let index = Element::new(ElementKind::SlideIndexMarker).materialize(&fill_context());
    match index {
        RenderNode::Label { value } => assert_eq!(value, 4),
        _ => panic!("expected a label"),
    }
    let count = Element::new(ElementKind::SlideCountMarker).materialize(&fill_context());
    match count {
        RenderNode::Label { value } => assert_eq!(value, 7),
        _ => panic!("expected a label"),
    }
}

#[test]
fn heading_group_list_and_rules() {
    let node = h1(text("title")).materialize(&fill_context());
    match node {
        RenderNode::Heading { level, content } => {
            assert_eq!(level, 1);
            assert!(matches!(*content, RenderNode::Text { .. }));
        },
        _ => panic!("expected a heading"),
    }
    let node = group(vec![text("a")]).materialize(&fill_context());
    assert!(matches!(node, RenderNode::Contained { .. }));
    let node = Element::new(ElementKind::List(list(vec![text("a"), text("b")])))
        .materialize(&fill_context());
    match node {
        RenderNode::List { items } => assert_eq!(items.len(), 2),
        _ => panic!("expected a list"),
    }
    assert!(matches!(
        hr().materialize(&fill_context()),
        RenderNode::Delimiter { vertical: false }
    ));
    assert!(matches!(
        vr().materialize(&fill_context()),
        RenderNode::Delimiter { vertical: true }
    ));
}

#[test]
fn split_constructors_keep_order_and_policies() {
    let e = hsplit(vec![fit(text("a")), expand(text("b")), expand_weighted(3, text("c"))]);
    match e.kind {
        ElementKind::Split(s) => {
            assert_eq!(s.orientation, Orientation::Column);
            assert_eq!(s.elements.len(), 3);
            assert!(matches!(s.elements[0].measurement, SplitMeasurement::Fit));
            assert!(matches!(
                s.elements[1].measurement,
                SplitMeasurement::Expand { weight: 1 }
            ));
            assert!(matches!(
                s.elements[2].measurement,
                SplitMeasurement::Expand { weight: 3 }
            ));
        },
        _ => panic!("expected a split"),
    }
    let e = vsplit(vec![expand(text("a"))]);
    assert!(matches!(
        e.kind,
        ElementKind::Split(ref s) if s.orientation == Orientation::Row
    ));
    // stack and hstack wrap every child as Fit.
    for e in [stack(vec![text("a"), text("b")]), hstack(vec![text("a"), text("b")])] {
        match e.kind {
            ElementKind::Split(s) => {
                assert!(s.elements.iter().all(|c| matches!(
                    c.measurement,
                    SplitMeasurement::Fit
                )));
            },
            _ => panic!("expected a split"),
        }
    }
}

#[test]
fn tuples_stand_for_child_lists() {
    let e = hsplit((fit(text("a")), expand(text("b"))));
    match e.kind {
        ElementKind::Split(s) => assert_eq!(s.elements.len(), 2),
        _ => panic!("expected a split"),
    }
    let e = stack((text("a"), text("b"), text("c")));
    match e.kind {
        ElementKind::Split(s) => {
            assert_eq!(s.orientation, Orientation::Row);
            assert_eq!(s.elements.len(), 3);
        },
        _ => panic!("expected a split"),
    }
}

#[test]
fn expand_shares_are_proportional() {
    // Weights 1, 2, 1 along a 400-unit axis with no Fit siblings.
    let children = vec![
        (SplitMeasurement::Expand { weight: 1 }, 0u64),
        (SplitMeasurement::Expand { weight: 2 }, 0u64),
        (SplitMeasurement::Expand { weight: 1 }, 0u64),
    ];
    assert_eq!(split_axis_sizes(&children, 400), vec![100, 200, 100]);
}

#[test]
fn fit_children_keep_natural_size() {
    let with_light_weights = vec![
        (SplitMeasurement::Fit, 30u64),
        (SplitMeasurement::Expand { weight: 1 }, 0u64),
    ];
    let with_heavy_weights = vec![
        (SplitMeasurement::Fit, 30u64),
        (SplitMeasurement::Expand { weight: 200 }, 0u64),
    ];
    let a = split_axis_sizes(&with_light_weights, 100);
    let b = split_axis_sizes(&with_heavy_weights, 100);
    // The Fit child's size does not depend on sibling expand weights.
    assert_eq!(a[0], 30);
    assert_eq!(b[0], 30);
    // Only expand children take the remaining space.
    assert_eq!(a[1], 70);
    assert_eq!(b[1], 70);
}

#[test]
fn expand_shares_round_down_and_fit_overflow_leaves_nothing() {
    let children = vec![
        (SplitMeasurement::Expand { weight: 1 }, 0u64),
        (SplitMeasurement::Expand { weight: 1 }, 0u64),
        (SplitMeasurement::Expand { weight: 1 }, 0u64),
    ];
    assert_eq!(split_axis_sizes(&children, 100), vec![33, 33, 33]);
    // Fit children larger than the axis leave zero remaining space.
    let crowded = vec![
        (SplitMeasurement::Fit, 500u64),
        (SplitMeasurement::Expand { weight: 2 }, 0u64),
    ];
    assert_eq!(split_axis_sizes(&crowded, 400), vec![500, 0]);
}
