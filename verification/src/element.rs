//! The element tree: an immutable, composable description of the visual units
//! of a slide.
//!
//! An [`Element`] pairs a kind-specific payload with optional alignment and
//! color overrides and an opaque attribute map. Kinds form a closed set: text,
//! headings, code blocks, images, lists, delimiters, slide position markers,
//! lazily-built backend content, and splits that arrange children along one
//! axis with fit-or-weighted-expand sizing.

use vstd::prelude::*;

use crate::color::ElementColor;

verus! {

/// Horizontal alignment of an element within the space offered to it.
#[derive(Debug, Clone, Copy, Eq, PartialEq, Structural)]
pub enum HAlign {
    Left,
    Center,
    Right,
    /// Fill the available space instead of wrapping in an alignment adapter.
    Fill,
}

/// The stacking axis of a split: `Row` stacks children top-to-bottom,
/// `Column` lines them up side by side.
#[derive(Debug, Clone, Copy, Eq, PartialEq, Structural)]
pub enum Orientation {
    Row,
    Column,
}

/// Sizing policy of one split child along the stacking axis.
#[derive(Debug, Clone, Copy, Eq, PartialEq, Structural)]
pub enum SplitMeasurement {
    /// The child keeps its natural size along the stacking axis.
    Fit,
    /// The child takes a share of the remaining stacking-axis space
    /// proportional to `weight / (sum of weights of expand siblings)`.
    /// The weight is meaningful only when positive.
    Expand { weight: u8 },
}

/// A plain run of text.
#[derive(Debug)]
pub struct Text(pub String);

/// A container that arranges children along one axis, each with its own
/// sizing policy. Stacking order is declaration order.
#[derive(Debug)]
pub struct Split {
    pub elements: Vec<SplitElement>,
    pub orientation: Orientation,
}

/// One split child: an element together with its sizing policy.
#[derive(Debug)]
pub struct SplitElement {
    pub element: Element,
    pub measurement: SplitMeasurement,
}

/// A bulleted list of independently materialized children.
#[derive(Debug)]
pub struct List {
    pub elements: Vec<Element>,
}

/// Marker that materializes as the 1-based ordinal of the current slide.
#[derive(Debug)]
pub struct SlideIndex;

/// Marker that materializes as the total number of slides in the deck.
#[derive(Debug)]
pub struct SlideCount;

/// A deferred, backend-native piece of content: a zero-argument builder the
/// viewer invokes outside of this library. The element tree refers to such
/// content by token; the viewer keeps the builders.
#[derive(Clone)]
pub struct LazyWidget<W>(pub W);

impl<W> LazyWidget<W> {
    /// Wraps a zero-argument builder function.
    pub fn new(function: W) -> (r: LazyWidget<W>)
        ensures
            r.0 == function,
    {
        LazyWidget(function)
    }

    /// Hands the wrapped builder back to the viewer.
    pub fn into_builder(self) -> (r: W)
        ensures
            r == self.0,
    {
        self.0
    }
}

/// The closed set of element kinds.
#[derive(Debug)]
pub enum ElementKind {
    /// A run of text, painted with the context's resolved color.
    Text(Text),
    /// A child element wrapped in heading styling of the given level (1..=6).
    Heading { level: u8, contents: Box<Element> },
    /// A syntax-highlighted block of source code.
    Code { lang: String, source: String },
    /// A decoded backend texture, referred to by token.
    Image { token: usize },
    /// A bulleted list.
    List(List),
    /// A horizontal or vertical rule; no children.
    Delimiter { vertical: bool },
    /// The 1-based ordinal of the current slide.
    SlideIndexMarker,
    /// The total number of slides.
    SlideCountMarker,
    /// Backend-native content built outside the library, by token.
    Lazy { token: usize },
    /// A single-axis arrangement of children.
    Split(Split),
    /// A child element wrapped in a visual container.
    Group(Box<Element>),
}

/// One visual unit of a slide: a kind plus optional alignment and color
/// overrides and an opaque string attribute map.
#[derive(Debug)]
pub struct Element {
    pub kind: ElementKind,
    pub align: Option<HAlign>,
    pub color: Option<ElementColor>,
    pub attrs: Vec<(String, String)>,
}

/// True when an element carries no overrides and no attributes: the shape
/// every constructor in this module produces.
pub open spec fn plain_shell(e: Element) -> bool {
    &&& e.align is None
    &&& e.color is None
    &&& e.attrs@.len() == 0
}

impl Element {
    /// Builds an element of the given kind with no overrides.
    pub fn new(kind: ElementKind) -> (r: Element)
        ensures
            r.kind == kind,
            plain_shell(r),
    {
        Element { kind, align: None, color: None, attrs: Vec::new() }
    }

    /// Returns the element with its alignment override set to `Center`.
    pub fn centered(self) -> (r: Element)
        ensures
            r.align == Some(HAlign::Center),
            r.kind == self.kind,
            r.color == self.color,
            r.attrs@ == self.attrs@,
    {
        Element { align: Some(HAlign::Center), ..self }
    }

    /// Returns the element with its alignment override set to `Left`.
    pub fn left_aligned(self) -> (r: Element)
        ensures
            r.align == Some(HAlign::Left),
            r.kind == self.kind,
            r.color == self.color,
            r.attrs@ == self.attrs@,
    {
        Element { align: Some(HAlign::Left), ..self }
    }

    /// Returns the element with its alignment override set to `Right`.
    pub fn right_aligned(self) -> (r: Element)
        ensures
            r.align == Some(HAlign::Right),
            r.kind == self.kind,
            r.color == self.color,
            r.attrs@ == self.attrs@,
    {
        Element { align: Some(HAlign::Right), ..self }
    }

    /// Returns the element with its alignment override set to `Fill`.
    pub fn fill(self) -> (r: Element)
        ensures
            r.align == Some(HAlign::Fill),
            r.kind == self.kind,
            r.color == self.color,
            r.attrs@ == self.attrs@,
    {
        Element { align: Some(HAlign::Fill), ..self }
    }

    /// Returns the element with its color override set.
    pub fn text_color(self, color: ElementColor) -> (r: Element)
        ensures
            r.color == Some(color),
            r.kind == self.kind,
            r.align == self.align,
            r.attrs@ == self.attrs@,
    {
        Element { color: Some(color), ..self }
    }
}

/// A plain text element.
pub fn text(contents: &str) -> (r: Element)
    ensures
        plain_shell(r),
        r.kind matches ElementKind::Text(t) && t.0@ == contents@,
{
    Element::new(ElementKind::Text(Text(contents.to_owned())))
}

/// A syntax-highlighted code block for the given language tag.
pub fn code(lang: &str, source: &str) -> (r: Element)
    ensures
        plain_shell(r),
        r.kind matches ElementKind::Code { lang: l, source: s } && l@ == lang@ && s@ == source@,
{
    Element::new(ElementKind::Code { lang: lang.to_owned(), source: source.to_owned() })
}

/// A horizontal rule.
pub fn hr() -> (r: Element)
    ensures
        plain_shell(r),
        r.kind == (ElementKind::Delimiter { vertical: false }),
{
    Element::new(ElementKind::Delimiter { vertical: false })
}

/// A vertical rule.
pub fn vr() -> (r: Element)
    ensures
        plain_shell(r),
        r.kind == (ElementKind::Delimiter { vertical: true }),
{
    Element::new(ElementKind::Delimiter { vertical: true })
}

/// Values that can stand where a list of elements is expected.
pub trait Elements: Sized {
    /// The elements this value denotes, in order.
    spec fn spec_elements(&self) -> Seq<Element>;

    /// Turns the value into its elements.
    fn into_elements(self) -> (r: Vec<Element>)
        ensures
            r@ == self.spec_elements(),
    ;
}

impl Elements for Vec<Element> {
    open spec fn spec_elements(&self) -> Seq<Element> {
        self@
    }

    fn into_elements(self) -> (r: Vec<Element>) {
        self
    }
}

/// Values that can stand where a list of split children is expected.
pub trait SplitElements: Sized {
    /// The split children this value denotes, in order.
    spec fn spec_elements(&self) -> Seq<SplitElement>;

    /// Turns the value into its split children.
    fn into_elements(self) -> (r: Vec<SplitElement>)
        ensures
            r@ == self.spec_elements(),
    ;
}

impl SplitElements for Vec<SplitElement> {
    open spec fn spec_elements(&self) -> Seq<SplitElement> {
        self@
    }

    fn into_elements(self) -> (r: Vec<SplitElement>) {
        self
    }
}

impl Elements for (Element,) {
    open spec fn spec_elements(&self) -> Seq<Element> {
        seq![self.0]
    }

    fn into_elements(self) -> (r: Vec<Element>) {
        let (a,) = self;
        let mut r: Vec<Element> = Vec::new();
        r.push(a);
        proof {
            assert(r@ =~= seq![a]);
        }
        r
    }
}

impl Elements for (Element, Element) {
    open spec fn spec_elements(&self) -> Seq<Element> {
        seq![self.0, self.1]
    }

    fn into_elements(self) -> (r: Vec<Element>) {
        let (a, b) = self;
        let mut r: Vec<Element> = Vec::new();
        r.push(a);
        r.push(b);
        proof {
            assert(r@ =~= seq![a, b]);
        }
        r
    }
}

impl Elements for (Element, Element, Element) {
    open spec fn spec_elements(&self) -> Seq<Element> {
        seq![self.0, self.1, self.2]
    }

    fn into_elements(self) -> (r: Vec<Element>) {
        let (a, b, c) = self;
        let mut r: Vec<Element> = Vec::new();
        r.push(a);
        r.push(b);
        r.push(c);
        proof {
            assert(r@ =~= seq![a, b, c]);
        }
        r
    }
}

impl Elements for (Element, Element, Element, Element) {
    open spec fn spec_elements(&self) -> Seq<Element> {
        seq![self.0, self.1, self.2, self.3]
    }

    fn into_elements(self) -> (r: Vec<Element>) {
        let (a, b, c, d) = self;
        let mut r: Vec<Element> = Vec::new();
        r.push(a);
        r.push(b);
        r.push(c);
        r.push(d);
        proof {
            assert(r@ =~= seq![a, b, c, d]);
        }
        r
    }
}

impl Elements for (Element, Element, Element, Element, Element) {
    open spec fn spec_elements(&self) -> Seq<Element> {
        seq![self.0, self.1, self.2, self.3, self.4]
    }

    fn into_elements(self) -> (r: Vec<Element>) {
        let (a, b, c, d, e) = self;
        let mut r: Vec<Element> = Vec::new();
        r.push(a);
        r.push(b);
        r.push(c);
        r.push(d);
        r.push(e);
        proof {
            assert(r@ =~= seq![a, b, c, d, e]);
        }
        r
    }
}

impl Elements for (Element, Element, Element, Element, Element, Element) {
    open spec fn spec_elements(&self) -> Seq<Element> {
        seq![self.0, self.1, self.2, self.3, self.4, self.5]
    }

    fn into_elements(self) -> (r: Vec<Element>) {
        let (a, b, c, d, e, f) = self;
        let mut r: Vec<Element> = Vec::new();
        r.push(a);
        r.push(b);
        r.push(c);
        r.push(d);
        r.push(e);
        r.push(f);
        proof {
            assert(r@ =~= seq![a, b, c, d, e, f]);
        }
        r
    }
}

impl SplitElements for (SplitElement,) {
    open spec fn spec_elements(&self) -> Seq<SplitElement> {
        seq![self.0]
    }

    fn into_elements(self) -> (r: Vec<SplitElement>) {
        let (a,) = self;
        let mut r: Vec<SplitElement> = Vec::new();
        r.push(a);
        proof {
            assert(r@ =~= seq![a]);
        }
        r
    }
}

impl SplitElements for (SplitElement, SplitElement) {
    open spec fn spec_elements(&self) -> Seq<SplitElement> {
        seq![self.0, self.1]
    }

    fn into_elements(self) -> (r: Vec<SplitElement>) {
        let (a, b) = self;
        let mut r: Vec<SplitElement> = Vec::new();
        r.push(a);
        r.push(b);
        proof {
            assert(r@ =~= seq![a, b]);
        }
        r
    }
}

impl SplitElements for (SplitElement, SplitElement, SplitElement) {
    open spec fn spec_elements(&self) -> Seq<SplitElement> {
        seq![self.0, self.1, self.2]
    }

    fn into_elements(self) -> (r: Vec<SplitElement>) {
        let (a, b, c) = self;
        let mut r: Vec<SplitElement> = Vec::new();
        r.push(a);
        r.push(b);
        r.push(c);
        proof {
            assert(r@ =~= seq![a, b, c]);
        }
        r
    }
}

impl SplitElements for (SplitElement, SplitElement, SplitElement, SplitElement) {
    open spec fn spec_elements(&self) -> Seq<SplitElement> {
        seq![self.0, self.1, self.2, self.3]
    }

    fn into_elements(self) -> (r: Vec<SplitElement>) {
        let (a, b, c, d) = self;
        let mut r: Vec<SplitElement> = Vec::new();
        r.push(a);
        r.push(b);
        r.push(c);
        r.push(d);
        proof {
            assert(r@ =~= seq![a, b, c, d]);
        }
        r
    }
}

impl SplitElements for (SplitElement, SplitElement, SplitElement, SplitElement, SplitElement) {
    open spec fn spec_elements(&self) -> Seq<SplitElement> {
        seq![self.0, self.1, self.2, self.3, self.4]
    }

    fn into_elements(self) -> (r: Vec<SplitElement>) {
        let (a, b, c, d, e) = self;
        let mut r: Vec<SplitElement> = Vec::new();
        r.push(a);
        r.push(b);
        r.push(c);
        r.push(d);
        r.push(e);
        proof {
            assert(r@ =~= seq![a, b, c, d, e]);
        }
        r
    }
}

impl SplitElements for (SplitElement, SplitElement, SplitElement, SplitElement, SplitElement, SplitElement) {
    open spec fn spec_elements(&self) -> Seq<SplitElement> {
        seq![self.0, self.1, self.2, self.3, self.4, self.5]
    }

    fn into_elements(self) -> (r: Vec<SplitElement>) {
        let (a, b, c, d, e, f) = self;
        let mut r: Vec<SplitElement> = Vec::new();
        r.push(a);
        r.push(b);
        r.push(c);
        r.push(d);
        r.push(e);
        r.push(f);
        proof {
            assert(r@ =~= seq![a, b, c, d, e, f]);
        }
        r
    }
}

/// Values that can stand where one split child is expected.
pub trait IntoSplitElement: Sized {
    /// The split child this value denotes.
    spec fn spec_split_element(&self) -> SplitElement;

    /// Turns the value into a split child.
    fn into_split_element(self) -> (r: SplitElement)
        ensures
            r == self.spec_split_element(),
    ;
}

impl IntoSplitElement for SplitElement {
    open spec fn spec_split_element(&self) -> SplitElement {
        *self
    }

    fn into_split_element(self) -> (r: SplitElement) {
        self
    }
}

impl IntoSplitElement for Element {
    open spec fn spec_split_element(&self) -> SplitElement {
        SplitElement { element: *self, measurement: SplitMeasurement::Expand { weight: 1 } }
    }

    fn into_split_element(self) -> (r: SplitElement) {
        SplitElement { element: self, measurement: SplitMeasurement::Expand { weight: 1 } }
    }
}

/// A split child that keeps its natural size along the stacking axis.
pub fn fit(element: Element) -> (r: SplitElement)
    ensures
        r.element == element,
        r.measurement == SplitMeasurement::Fit,
{
    SplitElement { element, measurement: SplitMeasurement::Fit }
}

/// A split child that takes an equal share of the remaining space.
pub fn expand(element: Element) -> (r: SplitElement)
    ensures
        r.element == element,
        r.measurement == (SplitMeasurement::Expand { weight: 1 }),
{
    expand_weighted(1, element)
}

/// A split child that takes a weighted share of the remaining space.
pub fn expand_weighted(weight: u8, element: Element) -> (r: SplitElement)
    ensures
        r.element == element,
        r.measurement == (SplitMeasurement::Expand { weight }),
{
    SplitElement { element, measurement: SplitMeasurement::Expand { weight } }
}

/// True when `r` is a plain split with the given orientation and children.
pub open spec fn is_split_of(r: Element, orientation: Orientation, children: Seq<SplitElement>) -> bool {
    &&& plain_shell(r)
    &&& r.kind matches ElementKind::Split(s) && s.orientation == orientation && s.elements@
        == children
}

/// Lines children up side by side, with per-child sizing policies.
pub fn hsplit(elements: impl SplitElements) -> (r: Element)
    ensures
        is_split_of(r, Orientation::Column, elements.spec_elements()),
{
    Element::new(
        ElementKind::Split(
            Split { orientation: Orientation::Column, elements: elements.into_elements() },
        ),
    )
}

/// Stacks children top-to-bottom, with per-child sizing policies.
pub fn vsplit(elements: impl SplitElements) -> (r: Element)
    ensures
        is_split_of(r, Orientation::Row, elements.spec_elements()),
{
    Element::new(
        ElementKind::Split(
            Split { orientation: Orientation::Row, elements: elements.into_elements() },
        ),
    )
}

/// Every element wrapped as a `Fit` split child, in order.
pub open spec fn fit_wrapped(els: Seq<Element>) -> Seq<SplitElement> {
    els.map_values(|e: Element| SplitElement { element: e, measurement: SplitMeasurement::Fit })
}

/// Wraps every element as a `Fit` child of a split with the given
/// orientation.
fn split_of_fits(elements: Vec<Element>, orientation: Orientation) -> (r: Element)
    ensures
        is_split_of(r, orientation, fit_wrapped(elements@)),
{
    let ghost all = elements@;
    let mut rest = elements;
    let mut out: Vec<SplitElement> = Vec::new();
    while rest.len() > 0
        invariant
            out@.len() + rest@.len() == all.len(),
            rest@ == all.subrange(out@.len() as int, all.len() as int),
            out@ == fit_wrapped(all.subrange(0, out@.len() as int)),
        decreases rest@.len(),
    {
        let e = rest.remove(0);
        out.push(fit(e));
        proof {
            assert(rest@ =~= all.subrange(out@.len() as int, all.len() as int));
            assert(out@ =~= fit_wrapped(all.subrange(0, out@.len() as int)));
        }
    }
    proof {
        assert(all.subrange(0, all.len() as int) =~= all);
    }
    match orientation {
        Orientation::Row => vsplit(out),
        Orientation::Column => hsplit(out),
    }
}

/// Stacks elements top-to-bottom, each keeping its natural size.
pub fn stack(elements: impl Elements) -> (r: Element)
    ensures
        is_split_of(r, Orientation::Row, fit_wrapped(elements.spec_elements())),
{
    split_of_fits(elements.into_elements(), Orientation::Row)
}

/// Lines elements up side by side, each keeping its natural size.
pub fn hstack(elements: impl Elements) -> (r: Element)
    ensures
        is_split_of(r, Orientation::Column, fit_wrapped(elements.spec_elements())),
{
    split_of_fits(elements.into_elements(), Orientation::Column)
}

/// A stack of elements wrapped in a visual container.
pub fn group(elements: impl Elements) -> (r: Element)
    ensures
        plain_shell(r),
        r.kind matches ElementKind::Group(inner) && is_split_of(
            *inner,
            Orientation::Row,
            fit_wrapped(elements.spec_elements()),
        ),
{
    let inner = stack(elements);
    Element::new(ElementKind::Group(Box::new(inner)))
}

/// A bulleted list of the given elements.
pub fn list(elements: impl Elements) -> (r: List)
    ensures
        r.elements@ == elements.spec_elements(),
{
    List { elements: elements.into_elements() }
}

/// True when `r` is a plain heading of the given level around `inner`.
pub open spec fn is_heading_of(r: Element, level: u8, inner: Element) -> bool {
    &&& plain_shell(r)
    &&& r.kind matches ElementKind::Heading { level: l, contents } && l == level && *contents
        == inner
}

/// A first-level heading around the given contents.
pub fn h1(contents: Element) -> (r: Element)
    ensures
        is_heading_of(r, 1, contents),
{
    Element::new(ElementKind::Heading { level: 1, contents: Box::new(contents) })
}

/// A second-level heading around the given contents.
pub fn h2(contents: Element) -> (r: Element)
    ensures
        is_heading_of(r, 2, contents),
{
    Element::new(ElementKind::Heading { level: 2, contents: Box::new(contents) })
}

/// A third-level heading around the given contents.
pub fn h3(contents: Element) -> (r: Element)
    ensures
        is_heading_of(r, 3, contents),
{
    Element::new(ElementKind::Heading { level: 3, contents: Box::new(contents) })
}

/// A fourth-level heading around the given contents.
pub fn h4(contents: Element) -> (r: Element)
    ensures
        is_heading_of(r, 4, contents),
{
    Element::new(ElementKind::Heading { level: 4, contents: Box::new(contents) })
}

/// A fifth-level heading around the given contents.
pub fn h5(contents: Element) -> (r: Element)
    ensures
        is_heading_of(r, 5, contents),
{
    Element::new(ElementKind::Heading { level: 5, contents: Box::new(contents) })
}

/// A sixth-level heading around the given contents.
pub fn h6(contents: Element) -> (r: Element)
    ensures
        is_heading_of(r, 6, contents),
{
    Element::new(ElementKind::Heading { level: 6, contents: Box::new(contents) })
}

} // verus!
