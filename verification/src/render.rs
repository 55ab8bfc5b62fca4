//! From source text to highlighted HTML.
//!
//! The tokenizer of `tree_sitter_highlight` cuts the source into spans and
//! says where a highlight begins and ends; its renderer turns that into
//! lines of HTML; the lines are then set into a table.
use tree_sitter_highlight::{Highlight, HighlightEvent};
use vstd::prelude::*;
use vstd::utf8::encode_utf8;

use crate::table::{lemma_empty_table, table_html, table_text, texts};

verus! {

/// The grammars that are known on this machine.
#[verifier::external_type_specification]
#[verifier::external_body]
pub struct ExLoader(tree_sitter_loader::Loader);

/// A grammar together with its highlighting queries.
#[verifier::external_type_specification]
#[verifier::external_body]
pub struct ExHighlightConfiguration(tree_sitter_highlight::HighlightConfiguration);

/// The buffer in which the renderer collects its lines.
#[verifier::external_type_specification]
#[verifier::external_body]
pub struct ExHtmlRenderer(tree_sitter_highlight::HtmlRenderer);

/// The reasons for which the tokenizer gives up.
#[verifier::external_type_specification]
pub struct ExHighlightError(tree_sitter_highlight::Error);

/// One step of the tokenizer's account of a source text.
#[derive(Debug, Clone, Copy, PartialEq, Eq, Structural)]
pub enum SpanEvent {
    /// The bytes from `start` up to `end` of the source come next.
    Source { start: usize, end: usize },
    /// What follows is highlighted with the style of this number.
    HighlightStart(usize),
    /// The highlight that began last ends here.
    HighlightEnd,
}

/// Why source text could not be turned into HTML.
#[derive(Debug, Clone, Copy, PartialEq, Eq, Structural)]
pub enum RenderFailure {
    /// The tokenizer was told to stop.
    Cancelled,
    /// The tokenizer could not use the grammar.
    InvalidLanguage,
    /// The tokenizer failed without saying why.
    Unknown,
    /// A span reaches beyond the source, or ends before it begins.
    SpanOutOfBounds,
    /// The HTML is longer than the renderer can keep track of.
    OutputTooLarge,
}

/// Whether every span of `events` lies inside a source of `len` bytes.
pub open spec fn spans_in_bounds(events: Seq<SpanEvent>, len: nat) -> bool {
    forall|i: int|
        0 <= i < events.len() ==> (#[trigger] events[i] matches SpanEvent::Source { start, end }
            ==> start <= end <= len)
}

/// The style attribute of each highlight, as characters.
pub open spec fn style_texts(styles: Seq<Option<String>>) -> Seq<Option<Seq<char>>> {
    Seq::new(
        styles.len(),
        |i: int|
            match styles[i] {
                Some(css) => Some(css@),
                None => None,
            },
    )
}

/// The style attribute of the highlight with the given number: empty where
/// the highlight has none.
pub open spec fn style_text(styles: Seq<Option<Seq<char>>>, highlight: int) -> Seq<char> {
    if 0 <= highlight < styles.len() {
        match styles[highlight] {
            Some(css) => css,
            None => Seq::empty(),
        }
    } else {
        Seq::empty()
    }
}

/// The renderer after it has rendered `events` over `source`, asking
/// `styles` for the attribute of each highlight.
pub uninterp spec fn rendering(
    events: Seq<SpanEvent>,
    source: Seq<u8>,
    styles: Seq<Option<Seq<char>>>,
) -> tree_sitter_highlight::HtmlRenderer;

/// The HTML that a renderer holds.
pub uninterp spec fn html_of(renderer: tree_sitter_highlight::HtmlRenderer) -> Seq<u8>;

/// The HTML that a renderer holds, line by line, each with its line break.
pub uninterp spec fn lines_of(renderer: tree_sitter_highlight::HtmlRenderer) -> Seq<Seq<char>>;

/// Whether a renderer is one that rendered spans inside their source.
pub open spec fn is_rendering(renderer: tree_sitter_highlight::HtmlRenderer) -> bool {
    exists|events: Seq<SpanEvent>, source: Seq<u8>, styles: Seq<Option<Seq<char>>>|
        spans_in_bounds(events, source.len()) && renderer == #[trigger] rendering(
            events,
            source,
            styles,
        )
}

/// What becomes of the tokenizer's outcome: its failure stays what it is;
/// its spans are rendered and set into a table, unless one of them lies
/// outside the source or the HTML outgrows the renderer.
pub open spec fn rendered_html(
    outcome: Result<Seq<SpanEvent>, RenderFailure>,
    source: Seq<u8>,
    styles: Seq<Option<Seq<char>>>,
) -> Result<Seq<char>, RenderFailure> {
    match outcome {
        Err(failure) => Err(failure),
        Ok(events) => {
            if !spans_in_bounds(events, source.len()) {
                Err(RenderFailure::SpanOutOfBounds)
            } else if html_of(rendering(events, source, styles)).len() > u32::MAX {
                Err(RenderFailure::OutputTooLarge)
            } else {
                Ok(table_text(lines_of(rendering(events, source, styles))))
            }
        },
    }
}

/// The characters of a rendering, or the failure to produce one.
pub open spec fn html_text(html: Result<String, RenderFailure>) -> Result<
    Seq<char>,
    RenderFailure,
> {
    match html {
        Ok(html) => Ok(html@),
        Err(failure) => Err(failure),
    }
}

/// The spans of a tokenizer's outcome, or its failure.
pub open spec fn outcome_view(outcome: Result<Vec<SpanEvent>, RenderFailure>) -> Result<
    Seq<SpanEvent>,
    RenderFailure,
> {
    match outcome {
        Ok(events) => Ok(events@),
        Err(failure) => Err(failure),
    }
}

/// `Highlighter::highlight` of `tree_sitter_highlight`, run to its end on a
/// fresh highlighter: the events in the order in which they came, or the
/// first failure. Languages embedded in the source are looked up in
/// `loader`. Trusted, and nothing is claimed of the outcome: it depends on
/// the grammars that the loader finds.
#[verifier::external_body]
fn highlight_events(
    loader: &tree_sitter_loader::Loader,
    config: &tree_sitter_highlight::HighlightConfiguration,
    source: &[u8],
) -> (events: Result<Vec<SpanEvent>, tree_sitter_highlight::Error>) {
    let mut highlighter = tree_sitter_highlight::Highlighter::new();
    let events = highlighter.highlight(config, source, None, |name| {
        loader.highlight_config_for_injection_string(name)
    })?;
    events.map(|event| Ok(match event? {
        HighlightEvent::Source { start, end } => SpanEvent::Source { start, end },
        HighlightEvent::HighlightStart(highlight) => SpanEvent::HighlightStart(highlight.0),
        HighlightEvent::HighlightEnd => SpanEvent::HighlightEnd,
    })).collect()
}

/// `HtmlRenderer::render` of `tree_sitter_highlight` on a fresh renderer.
/// Trusted: with every span inside the source the call does not panic; it
/// fails only where the stream of events holds a failure, which this one
/// never does; and what the renderer then holds depends on the events, the
/// source and the styles alone.
#[verifier::external_body]
fn render_events<'a>(
    events: &Vec<SpanEvent>,
    source: &'a [u8],
    styles: &'a Vec<Option<String>>,
) -> (rendered: Result<tree_sitter_highlight::HtmlRenderer, tree_sitter_highlight::Error>)
    requires
        spans_in_bounds(events@, source@.len()),
    ensures
        rendered is Ok,
        rendered->Ok_0 == rendering(events@, source@, style_texts(styles@)),
{
    let mut renderer = tree_sitter_highlight::HtmlRenderer::new();
    let stream = events.iter().map(|event| Ok(match *event {
        SpanEvent::Source { start, end } => HighlightEvent::Source { start, end },
        SpanEvent::HighlightStart(highlight) => HighlightEvent::HighlightStart(Highlight(highlight)),
        SpanEvent::HighlightEnd => HighlightEvent::HighlightEnd,
    }));
    let styled = |highlight: Highlight| style_bytes(styles, highlight.0);
    match renderer.render(stream, source, &styled) {
        Ok(()) => Ok(renderer),
        Err(error) => Err(error),
    }
}

/// The length of the field `html` of an `HtmlRenderer`. Trusted: it is the
/// number of bytes of HTML that the renderer holds.
#[verifier::external_body]
fn html_len(renderer: &tree_sitter_highlight::HtmlRenderer) -> (len: usize)
    ensures
        len == html_of(*renderer).len(),
{
    renderer.html.len()
}

/// `HtmlRenderer::lines` of `tree_sitter_highlight`, each line copied.
/// Trusted: the renderer keeps the start of each line in 32 bits, so the
/// call is kept to renderers whose HTML that width can count, and to those
/// that `render` has filled, whose HTML is text; it then gives the lines
/// that the renderer holds.
#[verifier::external_body]
fn html_lines(renderer: &tree_sitter_highlight::HtmlRenderer) -> (lines: Vec<String>)
    requires
        is_rendering(*renderer),
        html_of(*renderer).len() <= u32::MAX,
    ensures
        texts(lines@) == lines_of(*renderer),
{
    renderer.lines().map(String::from).collect()
}

/// The style attribute of the highlight with the given number, as bytes:
/// empty where the highlight has none.
pub fn style_bytes<'a>(styles: &'a Vec<Option<String>>, highlight: usize) -> (css: &'a [u8])
    ensures
        css@ == encode_utf8(style_text(style_texts(styles@), highlight as int)),
{
    if highlight < styles.len() {
        match &styles[highlight] {
            Some(css) => css.as_str().as_bytes(),
            None => no_bytes(),
        }
    } else {
        no_bytes()
    }
}

/// No bytes at all.
fn no_bytes() -> (bytes: &'static [u8])
    ensures
        bytes@ == encode_utf8(Seq::<char>::empty()),
{
    proof {
        reveal_strlit("");
    }
    let nothing: &'static str = "";
    assert(nothing@ =~= Seq::<char>::empty());
    nothing.as_bytes()
}

/// The library's word for a failure of the tokenizer.
pub fn failure_of(error: tree_sitter_highlight::Error) -> (failure: RenderFailure)
    ensures
        failure == match error {
            tree_sitter_highlight::Error::Cancelled => RenderFailure::Cancelled,
            tree_sitter_highlight::Error::InvalidLanguage => RenderFailure::InvalidLanguage,
            tree_sitter_highlight::Error::Unknown => RenderFailure::Unknown,
        },
{
    match error {
        tree_sitter_highlight::Error::Cancelled => RenderFailure::Cancelled,
        tree_sitter_highlight::Error::InvalidLanguage => RenderFailure::InvalidLanguage,
        tree_sitter_highlight::Error::Unknown => RenderFailure::Unknown,
    }
}

/// Whether every span of `events` lies inside a source of `len` bytes.
pub fn check_spans(events: &Vec<SpanEvent>, len: usize) -> (inside: bool)
    ensures
        inside == spans_in_bounds(events@, len as nat),
{
    let mut i: usize = 0;
    while i < events.len()
        invariant
            i <= events.len(),
            spans_in_bounds(events@.take(i as int), len as nat),
        decreases events.len() - i,
    {
        match events[i] {
            SpanEvent::Source { start, end } => {
                if start > end || end > len {
                    return false;
                }
            },
            SpanEvent::HighlightStart(_) => {},
            SpanEvent::HighlightEnd => {},
        }
        assert forall|k: int| 0 <= k < i + 1 implies (#[trigger] events@.take(i + 1)[k] matches
        SpanEvent::Source { start, end } ==> start <= end <= len) by {
            if k < i {
                assert(events@.take(i as int)[k] == events@.take(i + 1)[k]);
            }
        }
        i = i + 1;
    }
    assert(events@.take(i as int) =~= events@);
    true
}

/// Renders what the tokenizer reported over `source` and sets the lines into
/// a table.
pub fn html_from_events(
    outcome: Result<Vec<SpanEvent>, RenderFailure>,
    source: &[u8],
    styles: &Vec<Option<String>>,
) -> (html: Result<String, RenderFailure>)
    ensures
        html_text(html) == rendered_html(outcome_view(outcome), source@, style_texts(styles@)),
{
    let events: Vec<SpanEvent> = match outcome {
        Ok(events) => events,
        Err(failure) => {
            return Err(failure);
        },
    };
    if !check_spans(&events, source.len()) {
        return Err(RenderFailure::SpanOutOfBounds);
    }
    match render_events(&events, source, styles) {
        Ok(renderer) => {
            if html_len(&renderer) > u32::MAX as usize {
                Err(RenderFailure::OutputTooLarge)
            } else {
                let lines: Vec<String> = html_lines(&renderer);
                Ok(table_html(&lines))
            }
        },
        Err(error) => Err(failure_of(error)),
    }
}

/// What highlighting `source` gives, where `outcome` is what the tokenizer
/// reports of it: the table without rows for an empty source, which is not
/// shown to the tokenizer at all, and else whatever becomes of the outcome.
pub open spec fn highlighted_html(
    outcome: Result<Seq<SpanEvent>, RenderFailure>,
    source: Seq<u8>,
    styles: Seq<Option<Seq<char>>>,
) -> Result<Seq<char>, RenderFailure> {
    if source.len() == 0 {
        Ok(table_text(Seq::empty()))
    } else {
        rendered_html(outcome, source, styles)
    }
}

/// Highlights `source` with the grammar of `config` and gives it back as an
/// HTML table, a numbered row for each line. An empty source gives the
/// table without rows.
pub fn string_html(
    loader: &tree_sitter_loader::Loader,
    styles: &Vec<Option<String>>,
    source: &[u8],
    config: &tree_sitter_highlight::HighlightConfiguration,
) -> (html: Result<String, RenderFailure>)
    ensures
        source@.len() == 0 ==> html_text(html) == Ok::<Seq<char>, RenderFailure>(
            "<table>\n</table>\n"@,
        ),
        exists|outcome: Result<Seq<SpanEvent>, RenderFailure>|
            html_text(html) == #[trigger] highlighted_html(
                outcome,
                source@,
                style_texts(styles@),
            ),
{
    if source.len() == 0 {
        let none: Vec<String> = Vec::new();
        let html: String = table_html(&none);
        proof {
            lemma_empty_table();
            assert(texts(none@) =~= Seq::<Seq<char>>::empty());
            let unseen: Result<Seq<SpanEvent>, RenderFailure> = Ok(Seq::empty());
            assert(Ok::<Seq<char>, RenderFailure>(html@) == highlighted_html(
                unseen,
                source@,
                style_texts(styles@),
            ));
        }
        return Ok(html);
    }
    let outcome: Result<Vec<SpanEvent>, RenderFailure> = match highlight_events(
        loader,
        config,
        source,
    ) {
        Ok(events) => Ok(events),
        Err(error) => Err(failure_of(error)),
    };
    let ghost seen = outcome_view(outcome);
    let html = html_from_events(outcome, source, styles);
    assert(html_text(html) == highlighted_html(seen, source@, style_texts(styles@)));
    html
}

} // verus!
