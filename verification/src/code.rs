//! Syntax-highlighted code blocks: the text layout and highlight cache.
//!
//! Highlighting itself is syntect's work and is reached through trusted
//! wrappers; everything around it is verified. A [`CodeView`] splits its
//! source into lines (keeping the line endings), has syntect style each
//! line, and checks at run time that the styled spans of every line
//! concatenate back to exactly that line — so a successful highlight is
//! proved to preserve the source text, without trusting the highlighter
//! for it. Highlighted lines are cached keyed by the text size: a new
//! highlight runs only when the size changes or no cache exists, and never
//! for an empty source.
//!
//! Measuring span widths needs the backend's fonts, so [`CodeView::measure`]
//! takes the measured widths and computes the verified layout: per-span x
//! offsets, the widest line, and the total height.

use vstd::prelude::*;

use vstd::string::*;

use crate::color::Color;

use syntect::easy::HighlightLines;
use syntect::highlighting::{FontStyle, ThemeSet};
use syntect::parsing::{SyntaxReference, SyntaxSet};

verus! {

#[verifier::external_type_specification]
#[verifier::external_body]
pub struct ExSyntaxSet(SyntaxSet);

#[verifier::external_type_specification]
#[verifier::external_body]
pub struct ExSyntaxReference(SyntaxReference);

#[verifier::external_type_specification]
#[verifier::external_body]
pub struct ExTheme(syntect::highlighting::Theme);

#[verifier::external_type_specification]
#[verifier::external_body]
pub struct ExThemeSet(ThemeSet);

#[verifier::external_type_specification]
#[verifier::external_body]
pub struct ExHighlightLines<'a>(HighlightLines<'a>);

/// Why a highlight could not be produced.
#[derive(Debug, Clone, Copy, PartialEq, Eq, Structural)]
pub enum CodeError {
    /// No syntax definition is registered for the language tag.
    UnknownLanguage,
    /// The default theme set does not hold the requested theme.
    MissingTheme,
    /// The highlighter failed on a line, or styled text that does not
    /// reassemble into the source line.
    Highlight,
}

/// One styled run of text within a highlighted line.
#[derive(Debug)]
pub struct StyledSpan {
    pub text: String,
    pub color: Color,
    pub bold: bool,
    pub italic: bool,
}

/// Relies on `SyntaxSet::load_defaults_newlines`: the syntax definitions
/// bundled with syntect, built for line-by-line parsing.
#[verifier::external_body]
fn load_default_syntaxes() -> SyntaxSet {
    SyntaxSet::load_defaults_newlines()
}

/// Relies on `ThemeSet::load_defaults`: the highlighting themes bundled
/// with syntect.
#[verifier::external_body]
fn load_default_themes() -> ThemeSet {
    ThemeSet::load_defaults()
}

/// Relies on `BTreeMap::get` on `ThemeSet::themes`: the theme registered
/// under the given name, if any, cloned out of the set.
#[verifier::external_body]
fn theme_named(themes: &ThemeSet, name: &str) -> Option<syntect::highlighting::Theme> {
    themes.themes.get(name).cloned()
}

/// Relies on `SyntaxSet::find_syntax_by_extension`: the syntax definition
/// registered for the file extension, if any.
#[verifier::external_body]
fn find_syntax<'a>(syntax_set: &'a SyntaxSet, extension: &str) -> Option<&'a SyntaxReference> {
    syntax_set.find_syntax_by_extension(extension)
}

/// Relies on `HighlightLines::new`: a line highlighter for the syntax,
/// styling with the theme, starting in the initial parse state.
#[verifier::external_body]
fn new_highlight_lines<'a>(
    syntax: &SyntaxReference,
    theme: &'a syntect::highlighting::Theme,
) -> HighlightLines<'a> {
    HighlightLines::new(syntax, theme)
}

/// Relies on `HighlightLines::highlight_line`: one line styled as runs of
/// text. Each run is copied out with its color and its bold and italic
/// flags; nothing is assumed of the runs — the caller checks them.
#[verifier::external_body]
fn highlight_line_spans(
    highlighter: &mut HighlightLines,
    line: &str,
    syntax_set: &SyntaxSet,
) -> Result<Vec<StyledSpan>, CodeError> {
    let regions = highlighter.highlight_line(line, syntax_set).map_err(|_| CodeError::Highlight)?;
    Ok(regions.into_iter().map(|(style, run)| StyledSpan {
        text: run.to_string(),
        color: Color { red: style.foreground.r, green: style.foreground.g, blue: style.foreground.b, alpha: style.foreground.a },
        bold: style.font_style.contains(FontStyle::BOLD),
        italic: style.font_style.contains(FontStyle::ITALIC),
    }).collect())
}

/// The characters of a list of strings, concatenated in order.
pub open spec fn concat_views(s: Seq<String>) -> Seq<char>
    decreases s.len(),
{
    if s.len() == 0 {
        Seq::empty()
    } else {
        concat_views(s.drop_last()) + s.last()@
    }
}

/// `lines` is `source` split into lines that keep their endings: the lines
/// concatenate back to the source, none is empty, a newline stands only as
/// a line's last character, and every line but the last ends with one.
pub open spec fn is_line_split(lines: Seq<String>, source: Seq<char>) -> bool {
    &&& concat_views(lines) == source
    &&& forall|i: int| 0 <= i < lines.len() ==> (#[trigger] lines[i])@.len() > 0
    &&& forall|i: int, j: int|
        0 <= i < lines.len() && 0 <= j < lines[i]@.len() - 1 ==> #[trigger] lines[i]@[j] != '\n'
    &&& forall|i: int| 0 <= i < lines.len() - 1 ==> (#[trigger] lines[i])@.last() == '\n'
}

/// Splits a source text into its lines, keeping each line's terminating
/// newline; the final line comes without one unless the source ends with a
/// newline. An empty source has no lines.
#[verifier::loop_isolation(false)]
pub fn split_lines(source: &str) -> (r: Vec<String>)
    ensures
        is_line_split(r@, source@),
{
    let len = source.unicode_len();
    let mut lines: Vec<String> = Vec::new();
    let mut start: usize = 0;
    let mut i: usize = 0;
    while i < len
        invariant
            start <= i <= len,
            concat_views(lines@) == source@.take(start as int),
            forall|l: int| 0 <= l < lines@.len() ==> (#[trigger] lines@[l])@.len() > 0,
            forall|l: int| 0 <= l < lines@.len() ==> (#[trigger] lines@[l])@.last() == '\n',
            forall|l: int, j: int|
                0 <= l < lines@.len() && 0 <= j < lines@[l]@.len() - 1
                    ==> #[trigger] lines@[l]@[j] != '\n',
            forall|k: int| start <= k < i ==> source@[k] != '\n',
        decreases len - i,
    {
        if source.get_char(i) == '\n' {
            let line = source.substring_char(start, i + 1).to_owned();
            proof {
                assert(lines@.push(line).drop_last() =~= lines@);
                assert(concat_views(lines@.push(line)) =~= concat_views(lines@) + line@);
                assert(source@.take(start as int) + source@.subrange(start as int, i + 1)
                    =~= source@.take(i + 1));
            }
            lines.push(line);
            start = i + 1;
        }
        i = i + 1;
    }
    if start < len {
        let line = source.substring_char(start, len).to_owned();
        proof {
            assert(lines@.push(line).drop_last() =~= lines@);
            assert(concat_views(lines@.push(line)) =~= concat_views(lines@) + line@);
            assert(source@.take(start as int) + source@.subrange(start as int, len as int)
                =~= source@);
        }
        lines.push(line);
    } else {
        proof {
            assert(source@.take(start as int) =~= source@);
        }
    }
    lines
}

/// The characters of a line's styled spans, concatenated in order.
pub open spec fn spans_text(s: Seq<StyledSpan>) -> Seq<char>
    decreases s.len(),
{
    if s.len() == 0 {
        Seq::empty()
    } else {
        spans_text(s.drop_last()) + s.last().text@
    }
}

/// The characters of a whole highlight, line by line, span by span.
pub open spec fn all_text(ls: Seq<Vec<StyledSpan>>) -> Seq<char>
    decreases ls.len(),
{
    if ls.len() == 0 {
        Seq::empty()
    } else {
        all_text(ls.drop_last()) + spans_text(ls.last()@)
    }
}

/// Checks that the spans of one line reassemble into exactly that line.
#[verifier::loop_isolation(false)]
fn spans_match_line(spans: &Vec<StyledSpan>, line: &String) -> (r: bool)
    ensures
        r == (spans_text(spans@) == line@),
{
    let mut acc = String::new();
    let n = spans.len();
    let mut j: usize = 0;
    while j < n
        invariant
            j <= n,
            acc@ == spans_text(spans@.take(j as int)),
        decreases n - j,
    {
        acc.append(spans[j].text.as_str());
        proof {
            assert(spans@.take(j + 1).drop_last() =~= spans@.take(j as int));
        }
        j = j + 1;
    }
    proof {
        assert(spans@.take(n as int) =~= spans@);
    }
    acc.eq(line)
}

/// The widths of one line's spans, summed: the line's width.
pub open spec fn line_sum(s: Seq<u64>) -> int
    decreases s.len(),
{
    if s.len() == 0 {
        0
    } else {
        line_sum(s.drop_last()) + s.last()
    }
}

/// The width of the widest line; zero when there are none.
pub open spec fn max_line_width(ws: Seq<Vec<u64>>) -> int
    decreases ws.len(),
{
    if ws.len() == 0 {
        0
    } else {
        let rest = max_line_width(ws.drop_last());
        let last = line_sum(ws.last()@);
        if last > rest {
            last
        } else {
            rest
        }
    }
}

/// A prefix of a line is no wider than the whole line.
proof fn lemma_line_sum_prefix(s: Seq<u64>, j: int)
    requires
        0 <= j <= s.len(),
    ensures
        line_sum(s.take(j)) <= line_sum(s),
        line_sum(s.take(j)) >= 0,
    decreases s.len(),
{
    if j == s.len() {
        assert(s.take(j) =~= s);
        lemma_line_sum_nonneg(s);
    } else {
        lemma_line_sum_prefix(s.drop_last(), j);
        assert(s.drop_last().take(j) =~= s.take(j));
    }
}

/// Line widths never go below zero.
proof fn lemma_line_sum_nonneg(s: Seq<u64>)
    ensures
        line_sum(s) >= 0,
    decreases s.len(),
{
    if s.len() > 0 {
        lemma_line_sum_nonneg(s.drop_last());
    }
}

/// Lays measured span widths out: for every span its x offset — the summed
/// widths of the spans before it on its line — together with the width of
/// the widest line and the total height of the block.
#[verifier::loop_isolation(false)]
pub fn measure_spans(widths: &Vec<Vec<u64>>, line_height: u64) -> (r: (Vec<Vec<u64>>, u64, u64))
    requires
        forall|i: int| 0 <= i < widths@.len() ==> line_sum((#[trigger] widths@[i])@) <= u64::MAX,
        widths@.len() * line_height <= u64::MAX,
    ensures
        r.0@.len() == widths@.len(),
        forall|i: int| 0 <= i < widths@.len() ==> (#[trigger] r.0@[i])@.len() == widths@[i]@.len(),
        forall|i: int, j: int|
            0 <= i < widths@.len() && 0 <= j < widths@[i]@.len() ==> #[trigger] r.0@[i]@[j] as int
                == line_sum(widths@[i]@.take(j)),
        r.1 as int == max_line_width(widths@),
        r.2 as int == widths@.len() * line_height,
{
    let n = widths.len();
    let mut offsets: Vec<Vec<u64>> = Vec::new();
    let mut widest: u64 = 0;
    let mut i: usize = 0;
    while i < n
        invariant
            i <= n,
            n == widths@.len(),
            offsets@.len() == i,
            forall|l: int| 0 <= l < i ==> (#[trigger] offsets@[l])@.len() == widths@[l]@.len(),
            forall|l: int, j: int|
                0 <= l < i && 0 <= j < widths@[l]@.len() ==> #[trigger] offsets@[l]@[j] as int
                    == line_sum(widths@[l]@.take(j)),
            widest as int == max_line_width(widths@.take(i as int)),
        decreases n - i,
    {
        let line = &widths[i];
        let m = line.len();
        let mut xs: Vec<u64> = Vec::new();
        let mut x: u64 = 0;
        let mut j: usize = 0;
        while j < m
            invariant
                j <= m,
                m == line@.len(),
                line@ == widths@[i as int]@,
                i < n,
                xs@.len() == j,
                x as int == line_sum(line@.take(j as int)),
                forall|k: int| 0 <= k < j ==> #[trigger] xs@[k] as int == line_sum(
                    line@.take(k),
                ),
            decreases m - j,
        {
            xs.push(x);
            proof {
                lemma_line_sum_prefix(line@, j + 1);
                assert(line@.take(j + 1).drop_last() =~= line@.take(j as int));
            }
            x = x + line[j];
            j = j + 1;
        }
        proof {
            assert(line@.take(m as int) =~= line@);
            assert(widths@.take(i + 1).drop_last() =~= widths@.take(i as int));
            assert(widths@.take(i + 1).last() == widths@[i as int]);
        }
        if x > widest {
            widest = x;
        }
        offsets.push(xs);
        i = i + 1;
    }
    proof {
        assert(widths@.take(n as int) =~= widths@);
    }
    let height = (n as u64) * line_height;
    (offsets, widest, height)
}

/// A code block's highlight cache: the source, the language tag, the
/// syntax and theme it is highlighted with, and the styled lines of the
/// most recent highlight, keyed by the text size they were produced for.
#[derive(Debug)]
pub struct CodeView {
    pub extension: String,
    pub syntax_set: SyntaxSet,
    pub theme: syntect::highlighting::Theme,
    pub source: String,
    pub lines: Vec<Vec<StyledSpan>>,
    pub size: (u64, u64),
    pub line_height: u64,
    pub cached_text_size: u64,
}

impl CodeView {
    /// A view over the given source for the given language tag, with no
    /// highlight produced yet.
    pub fn new(
        extension: &str,
        syntax_set: SyntaxSet,
        theme: syntect::highlighting::Theme,
        source: &str,
    ) -> (r: CodeView)
        ensures
            r.extension@ == extension@,
            r.source@ == source@,
            r.lines@ == Seq::<Vec<StyledSpan>>::empty(),
            r.size == (0u64, 0u64),
            r.line_height == 0,
            r.cached_text_size == 0,
    {
        CodeView {
            extension: extension.to_owned(),
            syntax_set,
            theme,
            source: source.to_owned(),
            lines: Vec::new(),
            size: (0, 0),
            line_height: 0,
            cached_text_size: 0,
        }
    }

    /// A view over the given source, using syntect's bundled syntaxes and
    /// its default dark mocha theme.
    pub fn with_default_sets(extension: &str, source: &str) -> (r: Result<CodeView, CodeError>)
        ensures
            r matches Ok(v) ==> {
                &&& v.extension@ == extension@
                &&& v.source@ == source@
                &&& v.lines@ == Seq::<Vec<StyledSpan>>::empty()
                &&& v.cached_text_size == 0
            },
    {
        let themes = load_default_themes();
        match theme_named(&themes, "base16-mocha.dark") {
            Some(theme) => Ok(CodeView::new(extension, load_default_syntaxes(), theme, source)),
            None => Err(CodeError::MissingTheme),
        }
    }

    /// Produces the styled lines for the given text size, unless a cached
    /// highlight for that size exists or the source is empty. On success
    /// the styled lines hold exactly the source's text: every line's spans
    /// reassemble into that source line. On any failure the view is left
    /// as it was.
    #[verifier::loop_isolation(false)]
    pub fn highlight(&mut self, text_size: u64) -> (r: Result<(), CodeError>)
        ensures
            final(self).extension == old(self).extension,
            final(self).source == old(self).source,
            final(self).size == old(self).size,
            final(self).line_height == old(self).line_height,
            (old(self).cached_text_size == text_size && old(self).lines@.len() > 0)
                ==> (*final(self) == *old(self) && r is Ok),
            old(self).source@.len() == 0 ==> (*final(self) == *old(self) && r is Ok),
            r is Err ==> *final(self) == *old(self),
            r is Ok && old(self).source@.len() > 0 && !(old(self).cached_text_size == text_size
                && old(self).lines@.len() > 0) ==> {
                &&& final(self).cached_text_size == text_size
                &&& all_text(final(self).lines@) == old(self).source@
                &&& final(self).lines@.len() > 0
            },
    {
        if text_size == self.cached_text_size && self.lines.len() > 0 {
            return Ok(());
        }
        if self.source.as_str().is_empty() {
            return Ok(());
        }
        let lines = split_lines(self.source.as_str());
        let syntax = match find_syntax(&self.syntax_set, self.extension.as_str()) {
            Some(s) => s,
            None => {
                return Err(CodeError::UnknownLanguage);
            },
        };
        let mut highlighter = new_highlight_lines(syntax, &self.theme);
        let n = lines.len();
        let mut out: Vec<Vec<StyledSpan>> = Vec::new();
        let mut i: usize = 0;
        while i < n
            invariant
                i <= n,
                n == lines@.len(),
                out@.len() == i,
                all_text(out@) == concat_views(lines@.take(i as int)),
            decreases n - i,
        {
            let spans = match highlight_line_spans(&mut highlighter, lines[i].as_str(),
                &self.syntax_set) {
                Ok(spans) => spans,
                Err(e) => {
                    return Err(e);
                },
            };
            if !spans_match_line(&spans, &lines[i]) {
                return Err(CodeError::Highlight);
            }
            proof {
                assert(out@.push(spans).drop_last() =~= out@);
                assert(lines@.take(i + 1).drop_last() =~= lines@.take(i as int));
            }
            out.push(spans);
            i = i + 1;
        }
        proof {
            assert(lines@.take(n as int) =~= lines@);
            assert(lines@.len() > 0) by {
                if lines@.len() == 0 {
                    assert(concat_views(lines@) =~= Seq::<char>::empty());
                }
            }
        }
        self.lines = out;
        self.cached_text_size = text_size;
        Ok(())
    }

    /// Stores the layout of the current highlight, given the backend's
    /// measured width for each span and the backend's line height: the
    /// block's size becomes the widest line by the total height. The x
    /// offsets of the spans are returned.
    pub fn measure(&mut self, widths: &Vec<Vec<u64>>, line_height: u64) -> (r: Vec<Vec<u64>>)
        requires
            forall|i: int|
                0 <= i < widths@.len() ==> line_sum((#[trigger] widths@[i])@) <= u64::MAX,
            widths@.len() * line_height <= u64::MAX,
        ensures
            final(self).extension == old(self).extension,
            final(self).source == old(self).source,
            final(self).lines == old(self).lines,
            final(self).cached_text_size == old(self).cached_text_size,
            final(self).line_height == line_height,
            final(self).size.0 as int == max_line_width(widths@),
            final(self).size.1 as int == widths@.len() * line_height,
            r@.len() == widths@.len(),
            forall|i: int, j: int|
                0 <= i < widths@.len() && 0 <= j < widths@[i]@.len() ==> #[trigger] r@[i]@[j]
                    as int == line_sum(widths@[i]@.take(j)),
    {
        let (offsets, widest, height) = measure_spans(widths, line_height);
        self.size = (widest, height);
        self.line_height = line_height;
        offsets
    }
}

} // verus!
