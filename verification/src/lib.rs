//! A presentation-authoring library: decks of slides are declared as trees of
//! composable visual elements, and a navigation state machine drives an
//! interactive viewer through them.
//!
//! The core is split into:
//! - the element tree and its materialization into render nodes, with
//!   presentation context (alignment, color, slide position) propagated down
//!   the tree with local overrides;
//! - the split/stack layout rules that arrange children along one axis with
//!   fit-or-weighted-expand sizing;
//! - the deck: an insertion-ordered, path-keyed collection of slides;
//! - the navigation state machine: current slide, pending successor, and a
//!   history stack for reversible traversal.
//!
//! Actual pixel rendering, font shaping and input plumbing belong to an
//! external backend: materialization produces a plain render-node tree and the
//! backend paints it.

pub mod code;
pub mod color;
pub mod context;
pub mod deck;
pub mod element;
pub mod layout;
pub mod render;
pub mod viewer;

pub use code::{measure_spans, split_lines, CodeError, CodeView, StyledSpan};
pub use color::{Color, ElementColor, Palette};
pub use context::Context;
pub use deck::{Show, ShowError, ShowSettings, Slide, SlideMeta};
pub use element::{
    code, expand, expand_weighted, fit, group, h1, h2, h3, h4, h5, h6, hr, hsplit, hstack, list,
    stack, text, vr, vsplit, Element, ElementKind, Elements, HAlign, IntoSplitElement, LazyWidget,
    List, Orientation, SlideCount, SlideIndex, Split, SplitElement, SplitElements,
    SplitMeasurement, Text,
};
pub use layout::split_axis_sizes;
pub use render::{RenderChild, RenderNode};
pub use viewer::{classify_key, Action, InputKey, Viewer};
