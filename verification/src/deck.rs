//! Slides and the deck that holds them.
//!
//! A [`Show`] is an insertion-ordered, path-keyed collection of [`Slide`]s.
//! Adding a slide assigns it an index equal to the slide count at insertion
//! time and inserts or overwrites by path; the path of the first slide ever
//! added is recorded as the deck's entry point and never changes afterwards.
//!
//! Overwriting an existing path neither renumbers other slides nor changes
//! the entry point; the overwriting slide's index is again taken from the
//! current slide count, so it can collide with an existing index. That is the
//! observed behavior of the deck and is kept as is.

use vstd::prelude::*;

use crate::element::Element;

verus! {

/// Settings of a presentation run. No settings are defined yet.
#[derive(Debug)]
pub struct ShowSettings {}

/// Metadata of one slide: its unique path, its insertion index, and the path
/// of its default successor (empty when the slide is terminal).
#[derive(Debug)]
pub struct SlideMeta {
    pub path: String,
    pub index: usize,
    pub next_slide: String,
}

impl SlideMeta {
    /// Metadata for the given path, with no successor and a placeholder
    /// index; the index is assigned when the slide is added to a deck.
    pub fn new(path: &str) -> (r: SlideMeta)
        ensures
            r.path@ == path@,
            r.next_slide@ == Seq::<char>::empty(),
            r.index == usize::MAX,
    {
        SlideMeta { path: path.to_owned(), next_slide: String::new(), index: usize::MAX }
    }

    /// Returns the metadata with its default successor set.
    pub fn with_next_slide(self, next_slide: &str) -> (r: SlideMeta)
        ensures
            r.path@ == self.path@,
            r.next_slide@ == next_slide@,
            r.index == self.index,
    {
        SlideMeta { next_slide: next_slide.to_owned(), ..self }
    }

    /// The slide's path.
    pub fn path(&self) -> (r: &str)
        ensures
            r@ == self.path@,
    {
        self.path.as_str()
    }
}

/// One slide: metadata plus the root of its element tree. Created once at
/// deck-build time and immutable thereafter.
#[derive(Debug)]
pub struct Slide {
    pub meta: SlideMeta,
    pub contents: Element,
}

impl Slide {
    /// Pairs metadata with the slide's contents.
    pub fn new(meta: SlideMeta, elements: Element) -> (r: Slide)
        ensures
            r.meta == meta,
            r.contents == elements,
    {
        Slide { meta, contents: elements }
    }
}

/// The error of a deck lookup: the requested path is absent.
#[derive(Debug, Clone, Copy, PartialEq, Eq, Structural)]
pub enum ShowError {
    UnknownSlide,
}

/// A deck: the path of the first slide ever added (the entry point, empty
/// while the deck is empty) and the slides in insertion order, keyed by path.
#[derive(Debug)]
pub struct Show {
    pub first_slide: String,
    pub slides: Vec<Slide>,
}

/// The first slide whose path is `p`, if any.
pub open spec fn spec_lookup(s: Seq<Slide>, p: Seq<char>) -> Option<Slide>
    decreases s.len(),
{
    if s.len() == 0 {
        None
    } else if s[0].meta.path@ == p {
        Some(s[0])
    } else {
        spec_lookup(s.drop_first(), p)
    }
}

/// `s` with `slide` either overwriting the first entry of the same path, or
/// appended at the end when its path is new.
pub open spec fn spec_insert(s: Seq<Slide>, slide: Slide) -> Seq<Slide>
    decreases s.len(),
{
    if s.len() == 0 {
        seq![slide]
    } else if s[0].meta.path@ == slide.meta.path@ {
        seq![slide] + s.drop_first()
    } else {
        seq![s[0]] + spec_insert(s.drop_first(), slide)
    }
}

/// `slide` with its index replaced, as the deck assigns it on insertion.
pub open spec fn with_index(slide: Slide, index: usize) -> Slide {
    Slide {
        meta: SlideMeta { path: slide.meta.path, index, next_slide: slide.meta.next_slide },
        contents: slide.contents,
    }
}

/// No slide in `s` is keyed by `p`.
pub open spec fn path_absent(s: Seq<Slide>, p: Seq<char>) -> bool {
    forall|j: int| 0 <= j < s.len() ==> s[j].meta.path@ != p
}

/// A slide added under a fresh path is appended at the end.
proof fn lemma_insert_absent(s: Seq<Slide>, slide: Slide)
    requires
        path_absent(s, slide.meta.path@),
    ensures
        spec_insert(s, slide) =~= s.push(slide),
    decreases s.len(),
{
    if s.len() == 0 {
    } else {
        assert(s[0].meta.path@ != slide.meta.path@);
        lemma_insert_absent(s.drop_first(), slide);
    }
}

/// A slide added under an already-present path overwrites the first slide of
/// that path, in place.
proof fn lemma_insert_present(s: Seq<Slide>, slide: Slide, i: int)
    requires
        0 <= i < s.len(),
        s[i].meta.path@ == slide.meta.path@,
        forall|j: int| 0 <= j < i ==> s[j].meta.path@ != slide.meta.path@,
    ensures
        spec_insert(s, slide) =~= s.update(i, slide),
    decreases s.len(),
{
    if i == 0 {
        assert(seq![slide] + s.drop_first() =~= s.update(0, slide));
    } else {
        lemma_insert_present(s.drop_first(), slide, i - 1);
        assert(s.drop_first().update(i - 1, slide) =~= s.update(i, slide).drop_first());
        assert(seq![s[0]] + s.update(i, slide).drop_first() =~= s.update(i, slide));
    }
}

impl Default for Show {
    /// The empty deck: no slides, no entry point.
    fn default() -> (r: Show)
        ensures
            r.first_slide@ == Seq::<char>::empty(),
            r.slides@ == Seq::<Slide>::empty(),
    {
        Show { first_slide: String::new(), slides: Vec::new() }
    }
}

impl Show {
    /// Adds a slide and returns the deck; when the deck had no entry point
    /// yet, the slide's path becomes the entry point.
    pub fn with(self, slide: Slide) -> (r: Show)
        requires
            self.slides@.len() < usize::MAX,
        ensures
            r.first_slide@ == (if self.first_slide@.len() == 0 {
                slide.meta.path@
            } else {
                self.first_slide@
            }),
            r.slides@ == spec_insert(self.slides@, with_index(slide, self.slides@.len() as usize)),
    {
        let mut this = self;
        if this.first_slide.as_str().is_empty() {
            this.first_slide = slide.meta.path.clone();
        }
        this.push(slide);
        this
    }

    /// Inserts the slide, assigning it an index equal to the current slide
    /// count; an existing slide of the same path is overwritten in place.
    /// The entry point is not touched.
    #[verifier::loop_isolation(false)]
    pub fn push(&mut self, slide: Slide)
        requires
            old(self).slides@.len() < usize::MAX,
        ensures
            final(self).first_slide == old(self).first_slide,
            final(self).slides@ == spec_insert(
                old(self).slides@,
                with_index(slide, old(self).slides@.len() as usize),
            ),
    {
        let ghost orig = self.slides@;
        let ghost stamped = with_index(slide, orig.len() as usize);
        let mut slide = slide;
        slide.meta.index = self.slides.len();
        assert(slide == stamped);
        let n = self.slides.len();
        let mut i: usize = 0;
        while i < n
            invariant
                n == self.slides@.len(),
                self.slides@ == orig,
                self.first_slide == old(self).first_slide,
                i <= n,
                forall|j: int| 0 <= j < i ==> self.slides@[j].meta.path@ != slide.meta.path@,
                slide == stamped,
            decreases n - i,
        {
            if self.slides[i].meta.path.eq(&slide.meta.path) {
                proof {
                    lemma_insert_present(orig, slide, i as int);
                }
                self.slides.set(i, slide);
                return ;
            }
            i = i + 1;
        }
        proof {
            lemma_insert_absent(orig, slide);
        }
        self.slides.push(slide);
    }

    /// Looks a slide up by path: the slide stored under `path`, or
    /// `UnknownSlide` when no slide has that path.
    pub fn resolve(&self, path: &str) -> (r: Result<&Slide, ShowError>)
        ensures
            match r {
                Ok(slide) => spec_lookup(self.slides@, path@) == Some(*slide),
                Err(e) => spec_lookup(self.slides@, path@) is None && e
                    == ShowError::UnknownSlide,
            },
    {
        let wanted: String = path.to_owned();
        let n = self.slides.len();
        let mut i: usize = 0;
        while i < n
            invariant
                n == self.slides@.len(),
                wanted@ == path@,
                i <= n,
                forall|j: int| 0 <= j < i ==> self.slides@[j].meta.path@ != path@,
            decreases n - i,
        {
            if self.slides[i].meta.path.eq(&wanted) {
                proof {
                    lemma_lookup_first_match(self.slides@, path@, i as int);
                }
                return Ok(&self.slides[i]);
            }
            i = i + 1;
        }
        proof {
            lemma_lookup_absent(self.slides@, path@);
        }
        Err(ShowError::UnknownSlide)
    }
}

/// Looking up a path held by no slide finds nothing.
proof fn lemma_lookup_absent(s: Seq<Slide>, p: Seq<char>)
    requires
        path_absent(s, p),
    ensures
        spec_lookup(s, p) is None,
    decreases s.len(),
{
    if s.len() == 0 {
    } else {
        lemma_lookup_absent(s.drop_first(), p);
    }
}

/// Looking up a path finds the first slide keyed by it.
proof fn lemma_lookup_first_match(s: Seq<Slide>, p: Seq<char>, i: int)
    requires
        0 <= i < s.len(),
        s[i].meta.path@ == p,
        forall|j: int| 0 <= j < i ==> s[j].meta.path@ != p,
    ensures
        spec_lookup(s, p) == Some(s[i]),
    decreases s.len(),
{
    if i == 0 {
    } else {
        lemma_lookup_first_match(s.drop_first(), p, i - 1);
    }
}

/// After a slide is added, looking its path up returns exactly that slide.
///
/// Together with [`lemma_add_keeps_others`] this pins the deck down: an added
/// slide is found under its path until another slide overwrites that path.
pub proof fn lemma_resolve_after_add(s: Seq<Slide>, slide: Slide)
    ensures
        spec_lookup(spec_insert(s, slide), slide.meta.path@) == Some(slide),
    decreases s.len(),
{
    if s.len() == 0 {
        assert(spec_insert(s, slide)[0] == slide);
    } else if s[0].meta.path@ == slide.meta.path@ {
        assert(spec_insert(s, slide)[0] == slide);
    } else {
        let t = spec_insert(s, slide);
        assert(t == seq![s[0]] + spec_insert(s.drop_first(), slide));
        assert(t[0] == s[0]);
        assert(t.drop_first() =~= spec_insert(s.drop_first(), slide));
        lemma_resolve_after_add(s.drop_first(), slide);
    }
}

/// Adding a slide leaves the lookup of every other path unchanged.
pub proof fn lemma_add_keeps_others(s: Seq<Slide>, slide: Slide, p: Seq<char>)
    requires
        p != slide.meta.path@,
    ensures
        spec_lookup(spec_insert(s, slide), p) == spec_lookup(s, p),
    decreases s.len(),
{
    if s.len() == 0 {
        assert(spec_insert(s, slide)[0] == slide);
        assert(spec_insert(s, slide).drop_first() =~= Seq::<Slide>::empty());
    } else if s[0].meta.path@ == slide.meta.path@ {
        let t = seq![slide] + s.drop_first();
        assert(t[0] == slide);
        assert(t.drop_first() =~= s.drop_first());
    } else {
        let t = spec_insert(s, slide);
        assert(t == seq![s[0]] + spec_insert(s.drop_first(), slide));
        assert(t[0] == s[0]);
        assert(t.drop_first() =~= spec_insert(s.drop_first(), slide));
        lemma_add_keeps_others(s.drop_first(), slide, p);
    }
}

/// Every slide index in the deck leaves room for the 1-based ordinal shown
/// by a slide-index marker.
pub open spec fn indices_bounded(s: Seq<Slide>) -> bool {
    forall|i: int| 0 <= i < s.len() ==> s[i].meta.index < usize::MAX
}

/// Adding a slide keeps every index in bounds: the new slide's index is the
/// old slide count, and nobody else is renumbered.
pub proof fn lemma_add_keeps_indices_bounded(s: Seq<Slide>, slide: Slide)
    requires
        indices_bounded(s),
        slide.meta.index < usize::MAX,
    ensures
        indices_bounded(spec_insert(s, slide)),
    decreases s.len(),
{
    if s.len() == 0 {
        assert(spec_insert(s, slide)[0] == slide);
    } else if s[0].meta.path@ == slide.meta.path@ {
        let t = seq![slide] + s.drop_first();
        assert forall|i: int| 0 <= i < t.len() implies t[i].meta.index < usize::MAX by {
            if i > 0 {
                assert(t[i] == s[i]);
            }
        }
    } else {
        assert(indices_bounded(s.drop_first())) by {
            assert(forall|i: int|
                0 <= i < s.drop_first().len() ==> s.drop_first()[i] == s[i + 1]);
        }
        lemma_add_keeps_indices_bounded(s.drop_first(), slide);
        let t = seq![s[0]] + spec_insert(s.drop_first(), slide);
        assert forall|i: int| 0 <= i < t.len() implies t[i].meta.index < usize::MAX by {
            if i > 0 {
                assert(t[i] == spec_insert(s.drop_first(), slide)[i - 1]);
            }
        }
    }
}

/// A successful lookup returns one of the deck's slides.
pub proof fn lemma_lookup_in(s: Seq<Slide>, p: Seq<char>)
    ensures
        spec_lookup(s, p) matches Some(slide) ==> exists|j: int|
            0 <= j < s.len() && s[j] == slide,
    decreases s.len(),
{
    if s.len() > 0 {
        lemma_lookup_in(s.drop_first(), p);
        if s[0].meta.path@ != p && spec_lookup(s, p) is Some {
            let slide = spec_lookup(s, p)->0;
            let j = choose|j: int| 0 <= j < s.drop_first().len() && s.drop_first()[j] == slide;
            assert(s[j + 1] == slide);
        }
    }
}

/// Once a deck has an entry point, adding slides never changes it: the first
/// slide ever added stays the entry point, whatever is added or overwritten
/// later.
pub proof fn lemma_entry_point_stable(deck: Show, slide: Slide)
    requires
        deck.first_slide@.len() > 0,
        deck.slides@.len() < usize::MAX,
    ensures
        forall|r: Show|
            call_ensures(Show::with, (deck, slide), r) ==> r.first_slide@ == deck.first_slide@,
{
}

} // verus!
