//! The viewer: the navigation state machine and the per-slide
//! materialization it drives.
//!
//! The viewer owns the deck and the navigation triple — the current slide's
//! path, the successor computed by the most recent materialization, and a
//! history stack of previously-current paths. Input events are classified
//! into `Next` / `Previous` actions; an action with nothing to do (empty
//! successor, empty history) is a no-op that still consumes the event.
//!
//! The successor is recomputed on every materialization: when the viewer
//! materializes the current slide it stores the slide's declared successor
//! in `next`, so a slide's successor is only authoritative once the slide
//! has been materialized since becoming current.

use vstd::prelude::*;

use crate::color::{ElementColor, Palette};
use crate::context::Context;
use crate::deck::{indices_bounded, lemma_lookup_in, spec_lookup, Show};
use crate::element::HAlign;
use crate::render::{node_view, render_element, RenderNode, RenderView};

verus! {

/// An abstract navigation action derived from input-event classification.
#[derive(Debug, Clone, Copy, PartialEq, Eq, Structural)]
pub enum Action {
    /// Advance to the computed successor slide.
    Next,
    /// Retreat to the most recently visited slide.
    Previous,
}

/// The logical identity of a pressed key, as far as navigation cares.
#[derive(Debug, Clone, Copy, PartialEq, Eq, Structural)]
pub enum InputKey {
    ArrowRight,
    ArrowLeft,
    Space,
    Enter,
    Backspace,
    /// A character key, by the character it produces.
    Character(char),
    /// Any key the viewer does not react to.
    Other,
}

/// Which action a key press maps to: arrow-right, space, enter, `l` and `n`
/// advance; arrow-left, backspace, `h` and `p` retreat; any held modifier
/// suppresses the action.
pub open spec fn spec_classify(key: InputKey, modifiers_empty: bool) -> Option<Action> {
    if !modifiers_empty {
        None
    } else {
        match key {
            InputKey::ArrowRight | InputKey::Space | InputKey::Enter => Some(Action::Next),
            InputKey::ArrowLeft | InputKey::Backspace => Some(Action::Previous),
            InputKey::Character(c) => if c == 'l' || c == 'n' {
                Some(Action::Next)
            } else if c == 'h' || c == 'p' {
                Some(Action::Previous)
            } else {
                None
            },
            InputKey::Other => None,
        }
    }
}

/// Classifies a key press into a navigation action.
pub fn classify_key(key: &InputKey, modifiers_empty: bool) -> (r: Option<Action>)
    ensures
        r == spec_classify(*key, modifiers_empty),
{
    if !modifiers_empty {
        return None;
    }
    match key {
        InputKey::ArrowRight | InputKey::Space | InputKey::Enter => Some(Action::Next),
        InputKey::ArrowLeft | InputKey::Backspace => Some(Action::Previous),
        InputKey::Character(c) => {
            if *c == 'l' || *c == 'n' {
                Some(Action::Next)
            } else if *c == 'h' || *c == 'p' {
                Some(Action::Previous)
            } else {
                None
            }
        },
        InputKey::Other => None,
    }
}

/// The mathematical shape of the navigation state.
#[verifier::ext_equal]
pub struct NavView {
    pub current: Seq<char>,
    pub next: Seq<char>,
    pub history: Seq<Seq<char>>,
}

/// The `Advance` transition: when the computed successor is empty the state
/// is unchanged (terminal slide); otherwise the previously-current path is
/// pushed onto the history and the successor becomes current. The successor
/// cell itself is only rewritten by the next materialization.
pub open spec fn spec_advance(n: NavView) -> NavView {
    if n.next.len() == 0 {
        n
    } else {
        NavView { current: n.next, next: n.next, history: n.history.push(n.current) }
    }
}

/// The `Retreat` transition: when the history is empty the state is
/// unchanged; otherwise the most recently pushed path is popped and becomes
/// current.
pub open spec fn spec_retreat(n: NavView) -> NavView {
    if n.history.len() == 0 {
        n
    } else {
        NavView {
            current: n.history.last(),
            next: n.next,
            history: n.history.drop_last(),
        }
    }
}

/// Advancing on an empty successor changes nothing: `current` and `history`
/// (and `next`) are exactly as before.
pub proof fn lemma_advance_empty_noop(n: NavView)
    requires
        n.next.len() == 0,
    ensures
        spec_advance(n) == n,
{
}

/// `n` advanced through the successors in `nexts`, in order; before each
/// advance the materializer has written that successor into the state.
pub open spec fn run_advances(n: NavView, nexts: Seq<Seq<char>>) -> NavView
    decreases nexts.len(),
{
    if nexts.len() == 0 {
        n
    } else {
        run_advances(
            spec_advance(NavView { next: nexts[0], ..n }),
            nexts.drop_first(),
        )
    }
}

/// `n` retreated `k` times.
pub open spec fn run_retreats(n: NavView, k: nat) -> NavView
    decreases k,
{
    if k == 0 {
        n
    } else {
        spec_retreat(run_retreats(n, (k - 1) as nat))
    }
}

/// A round trip returns home: any sequence of advances, each with a
/// non-empty successor available, followed by as many retreats, restores
/// the current path and the history to what they were at the start.
pub proof fn lemma_advance_retreat_round_trip(n: NavView, nexts: Seq<Seq<char>>)
    requires
        forall|i: int| 0 <= i < nexts.len() ==> nexts[i].len() > 0,
    ensures
        run_retreats(run_advances(n, nexts), nexts.len() as nat).current == n.current,
        run_retreats(run_advances(n, nexts), nexts.len() as nat).history == n.history,
    decreases nexts.len(),
{
    if nexts.len() > 0 {
        let stepped = spec_advance(NavView { next: nexts[0], ..n });
        assert(stepped.history == n.history.push(n.current));
        lemma_advance_retreat_round_trip(stepped, nexts.drop_first());
        let settled = run_retreats(
            run_advances(stepped, nexts.drop_first()),
            nexts.drop_first().len() as nat,
        );
        assert(run_retreats(run_advances(n, nexts), nexts.len() as nat) == spec_retreat(settled));
        assert(settled.history.last() == n.current);
        assert(settled.history.drop_last() =~= n.history);
    }
}

/// The running viewer: the deck (immutable once presentation starts), the
/// active theme, and the navigation triple.
#[derive(Debug)]
pub struct Viewer {
    pub show: Show,
    pub theme: Palette,
    pub current: String,
    pub next: String,
    pub history: Vec<String>,
}

/// The mathematical shape of a viewer's navigation state.
pub open spec fn nav_view(v: Viewer) -> NavView {
    NavView {
        current: v.current@,
        next: v.next@,
        history: v.history@.map_values(|s: String| s@),
    }
}

/// The context a slide of the given index is materialized under: centered,
/// painted with the theme's on-surface color by default.
pub open spec fn slide_context(theme: Palette, index: usize, count: usize) -> Context {
    Context {
        align: HAlign::Center,
        color: ElementColor::Color(theme.on_surface),
        theme,
        slide_index: index,
        slide_count: count,
    }
}

/// What materializing an unknown path produces: a centered text node naming
/// the missing path, painted with the theme's on-surface color.
pub open spec fn fallback_view(p: Seq<char>, theme: Palette) -> RenderView {
    RenderView::Aligned {
        align: HAlign::Center,
        content: Box::new(
            RenderView::Text { content: "unknown slide: "@ + p, color: theme.on_surface },
        ),
    }
}

impl Viewer {
    /// Starts a presentation of the deck: current is the deck's entry
    /// point, no successor is computed yet, the history is empty.
    pub fn new(show: Show, theme: Palette) -> (r: Viewer)
        ensures
            r.show == show,
            r.theme == theme,
            r.current@ == show.first_slide@,
            r.next@ == Seq::<char>::empty(),
            r.history@ == Seq::<String>::empty(),
    {
        let current = show.first_slide.clone();
        Viewer { show, theme, current, next: String::new(), history: Vec::new() }
    }

    /// Performs the `Advance` transition on the navigation state. The deck
    /// and theme are untouched.
    pub fn advance(&mut self)
        ensures
            nav_view(*final(self)) == spec_advance(nav_view(*old(self))),
            final(self).show == old(self).show,
            final(self).theme == old(self).theme,
    {
        if !self.next.as_str().is_empty() {
            let previous = self.current.clone();
            self.current = self.next.clone();
            self.history.push(previous);
            proof {
                assert(self.history@.map_values(|s: String| s@) =~= old(
                    self,
                ).history@.map_values(|s: String| s@).push(old(self).current@));
                assert(nav_view(*self) =~~= spec_advance(nav_view(*old(self))));
            }
        }
    }

    /// Performs the `Retreat` transition on the navigation state. The deck
    /// and theme are untouched.
    pub fn retreat(&mut self)
        ensures
            nav_view(*final(self)) == spec_retreat(nav_view(*old(self))),
            final(self).show == old(self).show,
            final(self).theme == old(self).theme,
    {
        match self.history.pop() {
            Some(previous) => {
                self.current = previous;
                proof {
                    assert(self.history@.map_values(|s: String| s@) =~= old(
                        self,
                    ).history@.map_values(|s: String| s@).drop_last());
                    assert(nav_view(*self) =~~= spec_retreat(nav_view(*old(self))));
                }
            },
            None => {
                proof {
                    assert(old(self).history@.map_values(|s: String| s@).len() == 0);
                }
            },
        }
    }

    /// Feeds one key event to the viewer. A key that classifies to an
    /// action consumes the event — the result says so — and, on a press,
    /// performs the transition; releases and no-op transitions leave the
    /// state unchanged.
    pub fn handle_key(&mut self, key: &InputKey, modifiers_empty: bool, pressed: bool) -> (handled:
        bool)
        ensures
            handled == (spec_classify(*key, modifiers_empty) is Some),
            final(self).show == old(self).show,
            final(self).theme == old(self).theme,
            nav_view(*final(self)) == (match spec_classify(*key, modifiers_empty) {
                Some(Action::Next) => if pressed {
                    spec_advance(nav_view(*old(self)))
                } else {
                    nav_view(*old(self))
                },
                Some(Action::Previous) => if pressed {
                    spec_retreat(nav_view(*old(self)))
                } else {
                    nav_view(*old(self))
                },
                None => nav_view(*old(self)),
            }),
    {
        match classify_key(key, modifiers_empty) {
            Some(action) => {
                if pressed {
                    match action {
                        Action::Next => self.advance(),
                        Action::Previous => self.retreat(),
                    }
                }
                true
            },
            None => false,
        }
    }

    /// Materializes the current slide and stores its declared successor in
    /// `next` — exactly one value per materialization, possibly empty.
    ///
    /// A current path absent from the deck never fails the viewer: the
    /// fallback node naming the missing path is produced instead, and
    /// `next` keeps its previous value.
    pub fn render_current(&mut self) -> (r: RenderNode)
        requires
            indices_bounded(old(self).show.slides@),
        ensures
            final(self).show == old(self).show,
            final(self).theme == old(self).theme,
            final(self).current == old(self).current,
            final(self).history == old(self).history,
            match spec_lookup(old(self).show.slides@, old(self).current@) {
                Some(slide) => {
                    &&& node_view(r) == render_element(
                        slide.contents,
                        slide_context(
                            old(self).theme,
                            slide.meta.index,
                            old(self).show.slides@.len() as usize,
                        ),
                    )
                    &&& final(self).next@ == slide.meta.next_slide@
                },
                None => {
                    &&& node_view(r) == fallback_view(old(self).current@, old(self).theme)
                    &&& final(self).next == old(self).next
                },
            },
    {
        proof {
            lemma_lookup_in(self.show.slides@, self.current@);
        }
        match self.show.resolve(self.current.as_str()) {
            Ok(slide) => {
                let context = Context {
                    align: HAlign::Center,
                    color: ElementColor::Color(self.theme.on_surface),
                    theme: self.theme,
                    slide_index: slide.meta.index,
                    slide_count: self.show.slides.len(),
                };
                let (node, successor) = slide.present(&context);
                self.next = successor;
                node
            },
            Err(_) => {
                let content = String::from_str("unknown slide: ").concat(self.current.as_str());
                let text_node = RenderNode::Text { content, color: self.theme.on_surface };
                proof {
                    assert(node_view(text_node) == (RenderView::Text {
                        content: "unknown slide: "@ + old(self).current@,
                        color: old(self).theme.on_surface,
                    }));
                }
                RenderNode::Aligned { align: HAlign::Center, content: Box::new(text_node) }
            },
        }
    }
}

} // verus!
