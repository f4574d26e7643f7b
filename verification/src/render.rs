//! Materialization: turning an element tree, given a context, into a render
//! node tree for the backend.
//!
//! Materializing an element first applies the element's own alignment and
//! color overrides to the incoming context, then builds the kind-specific
//! node under the overridden context, and finally wraps the node in an
//! alignment adapter unless the resulting alignment is `Fill`.
//!
//! [`render_element`] is the mathematical definition of this process; the
//! executable [`Element::materialize`] is proved to produce exactly its
//! result. Materializing a whole slide also yields the slide's declared
//! successor, as an explicit output in place of a shared mutable cell.

use vstd::prelude::*;

use crate::color::{spec_resolve, Color};
use crate::context::{override_context, Context};
use crate::deck::Slide;
use crate::element::{Element, ElementKind, HAlign, Orientation, SplitElement, SplitMeasurement};

verus! {

/// A concrete render node handed to the backend. Mirrors the element kinds,
/// with context-dependent data (colors, slide position) already filled in.
#[derive(Debug)]
pub enum RenderNode {
    /// Plain text painted with the given color.
    Text { content: String, color: Color },
    /// A displayed number: a slide ordinal or the slide count.
    Label { value: usize },
    /// A decoded backend texture, by token.
    Image { token: usize },
    /// Backend-native content built outside the library, by token.
    Lazy { token: usize },
    /// A block of source code to highlight and lay out.
    Code { lang: String, source: String },
    /// A horizontal or vertical rule.
    Delimiter { vertical: bool },
    /// A bulleted list.
    List { items: Vec<RenderNode> },
    /// Children arranged along one axis, each with its sizing policy.
    Stack { orientation: Orientation, children: Vec<RenderChild> },
    /// A node wrapped in heading styling of the given level.
    Heading { level: u8, content: Box<RenderNode> },
    /// A node wrapped in a visual container.
    Contained { content: Box<RenderNode> },
    /// A node wrapped in an alignment adapter.
    Aligned { align: HAlign, content: Box<RenderNode> },
}

/// One stack child: a node and its sizing policy along the stacking axis.
#[derive(Debug)]
pub struct RenderChild {
    pub node: RenderNode,
    pub measurement: SplitMeasurement,
}

/// The mathematical shape of a render node: strings as character sequences,
/// vectors as sequences, numbers unbounded.
#[verifier::ext_equal]
pub enum RenderView {
    Text { content: Seq<char>, color: Color },
    Label { value: int },
    Image { token: int },
    Lazy { token: int },
    Code { lang: Seq<char>, source: Seq<char> },
    Delimiter { vertical: bool },
    List { items: Seq<RenderView> },
    Stack { orientation: Orientation, children: Seq<RenderChildView> },
    Heading { level: int, content: Box<RenderView> },
    Contained { content: Box<RenderView> },
    Aligned { align: HAlign, content: Box<RenderView> },
}

/// The mathematical shape of one stack child.
#[verifier::ext_equal]
pub struct RenderChildView {
    pub node: RenderView,
    pub measurement: SplitMeasurement,
}

/// The mathematical shape of a render node.
pub open spec fn node_view(n: RenderNode) -> RenderView
    decreases n,
{
    match n {
        RenderNode::Text { content, color } => RenderView::Text { content: content@, color },
        RenderNode::Label { value } => RenderView::Label { value: value as int },
        RenderNode::Image { token } => RenderView::Image { token: token as int },
        RenderNode::Lazy { token } => RenderView::Lazy { token: token as int },
        RenderNode::Code { lang, source } => RenderView::Code { lang: lang@, source: source@ },
        RenderNode::Delimiter { vertical } => RenderView::Delimiter { vertical },
        RenderNode::List { items } => RenderView::List { items: nodes_view(items@) },
        RenderNode::Stack { orientation, children } => RenderView::Stack {
            orientation,
            children: children_view(children@),
        },
        RenderNode::Heading { level, content } => RenderView::Heading {
            level: level as int,
            content: Box::new(node_view(*content)),
        },
        RenderNode::Contained { content } => RenderView::Contained {
            content: Box::new(node_view(*content)),
        },
        RenderNode::Aligned { align, content } => RenderView::Aligned {
            align,
            content: Box::new(node_view(*content)),
        },
    }
}

/// The mathematical shape of one stack child.
pub open spec fn child_view(c: RenderChild) -> RenderChildView
    decreases c,
{
    RenderChildView { node: node_view(c.node), measurement: c.measurement }
}

/// The mathematical shape of a sequence of stack children.
pub open spec fn children_view(s: Seq<RenderChild>) -> Seq<RenderChildView>
    decreases s,
{
    if s.len() == 0 {
        Seq::empty()
    } else {
        seq![child_view(s[0])] + children_view(s.drop_first())
    }
}

/// The mathematical shape of a sequence of render nodes.
pub open spec fn nodes_view(s: Seq<RenderNode>) -> Seq<RenderView>
    decreases s,
{
    if s.len() == 0 {
        Seq::empty()
    } else {
        seq![node_view(s[0])] + nodes_view(s.drop_first())
    }
}

/// `children_view` maps `child_view` over the sequence, element by element.
pub proof fn lemma_children_view_props(s: Seq<RenderChild>)
    ensures
        children_view(s).len() == s.len(),
        forall|i: int| 0 <= i < s.len() ==> children_view(s)[i] == child_view(s[i]),
    decreases s.len(),
{
    if s.len() > 0 {
        lemma_children_view_props(s.drop_first());
        assert forall|i: int| 0 <= i < s.len() implies children_view(s)[i] == child_view(
            s[i],
        ) by {
            if i > 0 {
                assert(children_view(s)[i] == children_view(s.drop_first())[i - 1]);
                assert(s.drop_first()[i - 1] == s[i]);
            }
        }
    }
}

/// `nodes_view` maps `node_view` over the sequence, element by element.
pub proof fn lemma_nodes_view_props(s: Seq<RenderNode>)
    ensures
        nodes_view(s).len() == s.len(),
        forall|i: int| 0 <= i < s.len() ==> nodes_view(s)[i] == node_view(s[i]),
    decreases s.len(),
{
    if s.len() > 0 {
        lemma_nodes_view_props(s.drop_first());
        assert forall|i: int| 0 <= i < s.len() implies nodes_view(s)[i] == node_view(s[i]) by {
            if i > 0 {
                assert(nodes_view(s)[i] == nodes_view(s.drop_first())[i - 1]);
                assert(s.drop_first()[i - 1] == s[i]);
            }
        }
    }
}

/// The alignment step of materialization: `Fill` leaves the node unwrapped,
/// any other alignment wraps it in an alignment adapter.
pub open spec fn apply_align(align: HAlign, n: RenderView) -> RenderView {
    if align is Fill {
        n
    } else {
        RenderView::Aligned { align, content: Box::new(n) }
    }
}

/// What materializing an element under a context produces.
pub open spec fn render_element(e: Element, ctx: Context) -> RenderView
    decreases e,
{
    let c = override_context(e, ctx);
    apply_align(c.align, render_kind(e.kind, c))
}

/// What the kind-specific step of materialization produces, under the
/// already-overridden context.
pub open spec fn render_kind(k: ElementKind, c: Context) -> RenderView
    decreases k,
{
    match k {
        ElementKind::Text(t) => RenderView::Text {
            content: t.0@,
            color: spec_resolve(c.color, c.theme),
        },
        ElementKind::Heading { level, contents } => RenderView::Heading {
            level: level as int,
            content: Box::new(render_element(*contents, c)),
        },
        ElementKind::Code { lang, source } => RenderView::Code { lang: lang@, source: source@ },
        ElementKind::Image { token } => RenderView::Image { token: token as int },
        ElementKind::List(l) => RenderView::List { items: render_items(l.elements@, c) },
        ElementKind::Delimiter { vertical } => RenderView::Delimiter { vertical },
        ElementKind::SlideIndexMarker => RenderView::Label { value: c.slide_index + 1 },
        ElementKind::SlideCountMarker => RenderView::Label { value: c.slide_count as int },
        ElementKind::Lazy { token } => RenderView::Lazy { token: token as int },
        ElementKind::Split(s) => RenderView::Stack {
            orientation: s.orientation,
            children: render_split_children(s.elements@, c),
        },
        ElementKind::Group(inner) => RenderView::Contained {
            content: Box::new(render_element(*inner, c)),
        },
    }
}

/// What one split child produces: its element materialized under the
/// container's context, keeping the sizing policy.
pub open spec fn render_split_child(c: SplitElement, ctx: Context) -> RenderChildView
    decreases c,
{
    RenderChildView { node: render_element(c.element, ctx), measurement: c.measurement }
}

/// What the children of a split produce, in declaration order. Splits hand
/// their own context on unchanged.
pub open spec fn render_split_children(s: Seq<SplitElement>, ctx: Context) -> Seq<RenderChildView>
    decreases s,
{
    if s.len() == 0 {
        Seq::empty()
    } else {
        seq![render_split_child(s[0], ctx)] + render_split_children(s.drop_first(), ctx)
    }
}

/// What the children of a list produce, in declaration order.
pub open spec fn render_items(s: Seq<Element>, ctx: Context) -> Seq<RenderView>
    decreases s,
{
    if s.len() == 0 {
        Seq::empty()
    } else {
        seq![render_element(s[0], ctx)] + render_items(s.drop_first(), ctx)
    }
}

/// `render_split_children` maps `render_split_child` over the children.
pub proof fn lemma_render_split_children_props(s: Seq<SplitElement>, ctx: Context)
    ensures
        render_split_children(s, ctx).len() == s.len(),
        forall|i: int|
            0 <= i < s.len() ==> render_split_children(s, ctx)[i] == render_split_child(
                s[i],
                ctx,
            ),
    decreases s.len(),
{
    if s.len() > 0 {
        lemma_render_split_children_props(s.drop_first(), ctx);
        assert forall|i: int|
            0 <= i < s.len() implies render_split_children(s, ctx)[i] == render_split_child(
            s[i],
            ctx,
        ) by {
            if i > 0 {
                assert(render_split_children(s, ctx)[i] == render_split_children(
                    s.drop_first(),
                    ctx,
                )[i - 1]);
                assert(s.drop_first()[i - 1] == s[i]);
            }
        }
    }
}

/// `render_items` maps `render_element` over the items.
pub proof fn lemma_render_items_props(s: Seq<Element>, ctx: Context)
    ensures
        render_items(s, ctx).len() == s.len(),
        forall|i: int| 0 <= i < s.len() ==> render_items(s, ctx)[i] == render_element(s[i], ctx),
    decreases s.len(),
{
    if s.len() > 0 {
        lemma_render_items_props(s.drop_first(), ctx);
        assert forall|i: int|
            0 <= i < s.len() implies render_items(s, ctx)[i] == render_element(s[i], ctx) by {
            if i > 0 {
                assert(render_items(s, ctx)[i] == render_items(s.drop_first(), ctx)[i - 1]);
                assert(s.drop_first()[i - 1] == s[i]);
            }
        }
    }
}

impl Element {
    /// The incoming context with this element's overrides applied.
    fn context_with_overrides(&self, context: &Context) -> (c: Context)
        ensures
            c == override_context(*self, *context),
    {
        let mut c = *context;
        if let Some(a) = self.align {
            c.align = a;
        }
        if let Some(col) = self.color {
            c.color = col;
        }
        c
    }

    /// Materializes the element under the given context: exactly
    /// [`render_element`] of the two.
    #[verifier::loop_isolation(false)]
    pub fn materialize(&self, context: &Context) -> (r: RenderNode)
        requires
            context.slide_index < usize::MAX,
        ensures
            node_view(r) == render_element(*self, *context),
        decreases *self,
    {
        let c = self.context_with_overrides(context);
        let inner: RenderNode = match &self.kind {
            ElementKind::Text(t) => RenderNode::Text {
                content: t.0.clone(),
                color: c.color.resolve(&c),
            },
            ElementKind::Heading { level, contents } => RenderNode::Heading {
                level: *level,
                content: Box::new(contents.materialize(&c)),
            },
            ElementKind::Code { lang, source } => RenderNode::Code {
                lang: lang.clone(),
                source: source.clone(),
            },
            ElementKind::Image { token } => RenderNode::Image { token: *token },
            ElementKind::List(l) => {
                let n = l.elements.len();
                let mut items: Vec<RenderNode> = Vec::new();
                let mut i: usize = 0;
                while i < n
                    invariant
                        n == l.elements@.len(),
                        i <= n,
                        items@.len() == i,
                        forall|j: int|
                            0 <= j < i ==> node_view(items@[j]) == render_element(
                                l.elements@[j],
                                c,
                            ),
                    decreases n - i,
                {
                    proof {
                        assert(decreases_to!(*self => self.kind));
                        assert(decreases_to!(self.kind => l.elements@));
                        assert(decreases_to!(l.elements@ => l.elements@[i as int]));
                    }
                    let node = l.elements[i].materialize(&c);
                    items.push(node);
                    i = i + 1;
                }
                proof {
                    lemma_nodes_view_props(items@);
                    lemma_render_items_props(l.elements@, c);
                    assert(nodes_view(items@) =~= render_items(l.elements@, c));
                }
                RenderNode::List { items }
            },
            ElementKind::Delimiter { vertical } => RenderNode::Delimiter { vertical: *vertical },
            ElementKind::SlideIndexMarker => RenderNode::Label { value: c.slide_index + 1 },
            ElementKind::SlideCountMarker => RenderNode::Label { value: c.slide_count },
            ElementKind::Lazy { token } => RenderNode::Lazy { token: *token },
            ElementKind::Split(s) => {
                let n = s.elements.len();
                let mut children: Vec<RenderChild> = Vec::new();
                let mut i: usize = 0;
                while i < n
                    invariant
                        n == s.elements@.len(),
                        i <= n,
                        children@.len() == i,
                        forall|j: int|
                            0 <= j < i ==> child_view(children@[j]) == render_split_child(
                                s.elements@[j],
                                c,
                            ),
                    decreases n - i,
                {
                    proof {
                        assert(decreases_to!(*self => self.kind));
                        assert(decreases_to!(self.kind => s.elements@));
                        assert(decreases_to!(s.elements@ => s.elements@[i as int].element));
                    }
                    let node = s.elements[i].element.materialize(&c);
                    children.push(
                        RenderChild { node, measurement: s.elements[i].measurement },
                    );
                    i = i + 1;
                }
                proof {
                    lemma_children_view_props(children@);
                    lemma_render_split_children_props(s.elements@, c);
                    assert(children_view(children@) =~= render_split_children(s.elements@, c));
                }
                RenderNode::Stack { orientation: s.orientation, children }
            },
            ElementKind::Group(inner) => RenderNode::Contained {
                content: Box::new(inner.materialize(&c)),
            },
        };
        proof {
            assert(node_view(inner) == render_kind(self.kind, c));
        }
        if matches!(c.align, HAlign::Fill) {
            inner
        } else {
            RenderNode::Aligned { align: c.align, content: Box::new(inner) }
        }
    }
}

/// No color override anywhere in the element's tree.
pub open spec fn no_color_override(e: Element) -> bool
    decreases e,
{
    e.color is None && kind_no_color_override(e.kind)
}

/// No color override anywhere below this kind.
pub open spec fn kind_no_color_override(k: ElementKind) -> bool
    decreases k,
{
    match k {
        ElementKind::Heading { contents, .. } => no_color_override(*contents),
        ElementKind::List(l) => items_no_color_override(l.elements@),
        ElementKind::Split(s) => split_no_color_override(s.elements@),
        ElementKind::Group(inner) => no_color_override(*inner),
        _ => true,
    }
}

/// No color override anywhere in these elements.
pub open spec fn items_no_color_override(s: Seq<Element>) -> bool
    decreases s,
{
    s.len() == 0 || (no_color_override(s[0]) && items_no_color_override(s.drop_first()))
}

/// No color override anywhere in these split children.
pub open spec fn split_no_color_override(s: Seq<SplitElement>) -> bool
    decreases s,
{
    s.len() == 0 || (no_color_override(s[0].element) && split_no_color_override(s.drop_first()))
}

/// Every text node in the render tree is painted with `col`.
pub open spec fn texts_colored(n: RenderView, col: Color) -> bool
    decreases n,
{
    match n {
        RenderView::Text { color, .. } => color == col,
        RenderView::List { items } => views_texts_colored(items, col),
        RenderView::Stack { children, .. } => children_texts_colored(children, col),
        RenderView::Heading { content, .. } => texts_colored(*content, col),
        RenderView::Contained { content } => texts_colored(*content, col),
        RenderView::Aligned { content, .. } => texts_colored(*content, col),
        _ => true,
    }
}

/// Every text node in these render trees is painted with `col`.
pub open spec fn views_texts_colored(s: Seq<RenderView>, col: Color) -> bool
    decreases s,
{
    s.len() == 0 || (texts_colored(s[0], col) && views_texts_colored(s.drop_first(), col))
}

/// Every text node in these stack children is painted with `col`.
pub open spec fn children_texts_colored(s: Seq<RenderChildView>, col: Color) -> bool
    decreases s,
{
    s.len() == 0 || (texts_colored(s[0].node, col) && children_texts_colored(
        s.drop_first(),
        col,
    ))
}

/// A color set on the context propagates to every descendant text node of a
/// subtree that contains no color override of its own: all of them are
/// painted with the context's resolved color.
pub proof fn lemma_color_propagates(e: Element, ctx: Context)
    requires
        no_color_override(e),
    ensures
        texts_colored(render_element(e, ctx), spec_resolve(ctx.color, ctx.theme)),
    decreases e,
{
    let c = override_context(e, ctx);
    let col = spec_resolve(ctx.color, ctx.theme);
    assert(c.color == ctx.color && c.theme == ctx.theme);
    let inner = render_kind(e.kind, c);
    match e.kind {
        ElementKind::Heading { contents, .. } => {
            lemma_color_propagates(*contents, c);
        },
        ElementKind::List(l) => {
            lemma_items_color_propagates(l.elements@, c);
        },
        ElementKind::Split(s) => {
            lemma_split_color_propagates(s.elements@, c);
        },
        ElementKind::Group(g) => {
            lemma_color_propagates(*g, c);
        },
        _ => {},
    }
    assert(texts_colored(inner, col));
    assert(texts_colored(apply_align(c.align, inner), col));
}

/// [`lemma_color_propagates`], for the children of a list.
proof fn lemma_items_color_propagates(s: Seq<Element>, ctx: Context)
    requires
        items_no_color_override(s),
    ensures
        views_texts_colored(render_items(s, ctx), spec_resolve(ctx.color, ctx.theme)),
    decreases s,
{
    if s.len() > 0 {
        lemma_color_propagates(s[0], ctx);
        lemma_items_color_propagates(s.drop_first(), ctx);
        assert(render_items(s, ctx)[0] == render_element(s[0], ctx));
        assert(render_items(s, ctx).drop_first() =~= render_items(s.drop_first(), ctx));
    }
}

/// [`lemma_color_propagates`], for the children of a split.
proof fn lemma_split_color_propagates(s: Seq<SplitElement>, ctx: Context)
    requires
        split_no_color_override(s),
    ensures
        children_texts_colored(render_split_children(s, ctx), spec_resolve(ctx.color, ctx.theme)),
    decreases s,
{
    if s.len() > 0 {
        lemma_color_propagates(s[0].element, ctx);
        lemma_split_color_propagates(s.drop_first(), ctx);
        assert(render_split_children(s, ctx)[0] == render_split_child(s[0], ctx));
        assert(render_split_children(s, ctx).drop_first() =~= render_split_children(
            s.drop_first(),
            ctx,
        ));
    }
}

/// An element that overrides its color ignores the color of the incoming
/// context entirely: the override stops the propagation of any inherited
/// color past this element, however the rest of the context looks.
pub proof fn lemma_color_override_stops(e: Element, ctx1: Context, ctx2: Context)
    requires
        e.color is Some,
        ctx1.align == ctx2.align,
        ctx1.theme == ctx2.theme,
        ctx1.slide_index == ctx2.slide_index,
        ctx1.slide_count == ctx2.slide_count,
    ensures
        render_element(e, ctx1) == render_element(e, ctx2),
{
    assert(override_context(e, ctx1) == override_context(e, ctx2));
}

impl Slide {
    /// Materializes the slide under the given context.
    ///
    /// The second component of the result is the value for the viewer's
    /// `next` cell: materializing a slide always yields exactly one
    /// successor value — the slide's declared `next_slide`, possibly empty —
    /// alongside the render tree.
    pub fn present(&self, context: &Context) -> (r: (RenderNode, String))
        requires
            context.slide_index < usize::MAX,
        ensures
            node_view(r.0) == render_element(self.contents, *context),
            r.1@ == self.meta.next_slide@,
    {
        let node = self.contents.materialize(context);
        (node, self.meta.next_slide.clone())
    }
}

} // verus!
