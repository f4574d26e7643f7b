//! The presentation context threaded down an element tree during
//! materialization.
//!
//! A context is passed by value: each node may override its alignment or
//! color before recursing into children, and the overrides reach exactly the
//! node's own subtree.

use vstd::prelude::*;

use crate::color::{spec_resolve, Color, ElementColor, Palette};
use crate::element::{Element, HAlign};

verus! {

/// The inherited presentation state: alignment, the color requested for
/// text, the active theme, and the slide's position within the deck.
#[derive(Clone, Copy)]
pub struct Context {
    pub align: HAlign,
    pub color: ElementColor,
    pub theme: Palette,
    pub slide_index: usize,
    pub slide_count: usize,
}

impl ElementColor {
    /// Resolves the context's color request: a concrete color is returned as
    /// given, `Primary` denotes the theme's primary accent.
    pub fn resolve(&self, context: &Context) -> (c: Color)
        ensures
            c == spec_resolve(*self, context.theme),
    {
        match self {
            ElementColor::Color(color) => *color,
            ElementColor::Primary => context.theme.primary,
        }
    }
}

/// The context an element hands to its own kind: the incoming context with
/// the element's alignment and color overrides applied.
pub open spec fn override_context(e: Element, ctx: Context) -> Context {
    Context {
        align: if e.align is Some {
            e.align->0
        } else {
            ctx.align
        },
        color: if e.color is Some {
            e.color->0
        } else {
            ctx.color
        },
        ..ctx
    }
}

} // verus!
