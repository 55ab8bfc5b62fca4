use highlight_ez::render::{
    check_spans, failure_of, html_from_events, style_bytes, RenderFailure, SpanEvent,
};
use highlight_ez::table::table_html;
use highlight_ez::text::{decimal_string, same_text, to_lowercase};

fn keyword_style() -> Vec<Option<String>> {
    vec![Some(String::from("class='keyword'")), None]
}

#[test]
fn plain_text_becomes_one_row() {
    let events = vec![SpanEvent::Source { start: 0, end: 5 }];
    let html = html_from_events(Ok(events), b"hello", &Vec::new());
    assert_eq!(
        html,
        Ok(String::from(
            "<table>\n<tr><td class=line-number>1</td><td class=line>hello\n</td></tr>\n</table>\n"
        ))
    );
}

#[test]
fn python_function_becomes_two_numbered_rows() {
    let source = "def f(a):\n    return a";
    let events = vec![
        SpanEvent::HighlightStart(0),
        SpanEvent::Source { start: 0, end: 3 },
        SpanEvent::HighlightEnd,
        SpanEvent::Source { start: 3, end: 14 },
        SpanEvent::HighlightStart(0),
        SpanEvent::Source { start: 14, end: 20 },
        SpanEvent::HighlightEnd,
        SpanEvent::Source { start: 20, end: 22 },
    ];
    let html = html_from_events(Ok(events), source.as_bytes(), &keyword_style()).unwrap();
    assert_eq!(html.matches("<tr>").count(), 2);
    assert!(html.contains("<td class=line-number>1</td>"));
    assert!(html.contains("<td class=line-number>2</td>"));
    assert!(!html.contains("<td class=line-number>3</td>"));
    assert!(html.contains("<span class='keyword'>def</span>"));
    assert!(html.contains("<span class='keyword'>return</span>"));
    assert_eq!(
        html,
        "<table>\n\
         <tr><td class=line-number>1</td><td class=line><span class='keyword'>def</span> f(a):\n</td></tr>\n\
         <tr><td class=line-number>2</td><td class=line>    <span class='keyword'>return</span> a\n</td></tr>\n\
         </table>\n"
    );
}

#[test]
fn same_input_renders_the_same_twice() {
    let source = b"let a = 1;\nlet b = 2;\n";
    let events = vec![
        SpanEvent::HighlightStart(0),
        SpanEvent::Source { start: 0, end: 3 },
        SpanEvent::HighlightEnd,
        SpanEvent::Source { start: 3, end: 22 },
    ];
    let first = html_from_events(Ok(events.clone()), source, &keyword_style());
    let second = html_from_events(Ok(events), source, &keyword_style());
    assert!(first.is_ok());
    assert_eq!(first, second);
}

#[test]
fn highlight_without_style_is_a_bare_span() {
    let events = vec![
        SpanEvent::HighlightStart(1),
        SpanEvent::Source { start: 0, end: 2 },
        SpanEvent::HighlightEnd,
    ];
    let html = html_from_events(Ok(events), b"ab", &keyword_style()).unwrap();
    assert_eq!(
        html,
        "<table>\n<tr><td class=line-number>1</td><td class=line><span>ab</span>\n</td></tr>\n</table>\n"
    );
}

#[test]
fn highlight_unknown_to_the_styles_is_a_bare_span() {
    let events = vec![
        SpanEvent::HighlightStart(7),
        SpanEvent::Source { start: 0, end: 2 },
        SpanEvent::HighlightEnd,
    ];
    let html = html_from_events(Ok(events), b"ab", &keyword_style()).unwrap();
    assert!(html.contains("<span>ab</span>"));
}

#[test]
fn highlight_across_lines_is_closed_and_reopened() {
    let events = vec![
        SpanEvent::HighlightStart(0),
        SpanEvent::Source { start: 0, end: 3 },
        SpanEvent::HighlightEnd,
    ];
    let html = html_from_events(Ok(events), b"a\nb", &keyword_style()).unwrap();
    assert_eq!(
        html,
        "<table>\n\
         <tr><td class=line-number>1</td><td class=line><span class='keyword'>a</span>\n</td></tr>\n\
         <tr><td class=line-number>2</td><td class=line><span class='keyword'>b</span>\n</td></tr>\n\
         </table>\n"
    );
}

#[test]
fn markup_in_the_source_is_escaped() {
    let events = vec![SpanEvent::Source { start: 0, end: 9 }];
    let html = html_from_events(Ok(events), b"<a> & \"b\"", &Vec::new()).unwrap();
    assert!(html.contains("<td class=line>&lt;a&gt; &amp; &quot;b&quot;\n</td>"));
}

#[test]
fn rows_are_numbered_from_one_without_gaps() {
    let source = "a\nb\nc\nd\ne\nf\ng\nh\ni\nj\nk\nl\n";
    let events = vec![SpanEvent::Source { start: 0, end: source.len() }];
    let html = html_from_events(Ok(events), source.as_bytes(), &Vec::new()).unwrap();
    assert_eq!(html.matches("<tr>").count(), 12);
    let mut expected = String::from("<table>\n");
    for (i, line) in source.lines().enumerate() {
        expected.push_str(&format!(
            "<tr><td class=line-number>{}</td><td class=line>{}\n</td></tr>\n",
            i + 1,
            line
        ));
    }
    expected.push_str("</table>\n");
    assert_eq!(html, expected);
}

#[test]
fn no_lines_give_an_empty_table() {
    assert_eq!(table_html(&Vec::new()), "<table>\n</table>\n");
}

#[test]
fn no_events_render_a_single_empty_line() {
    let html = html_from_events(Ok(Vec::new()), b"", &Vec::new());
    assert_eq!(
        html,
        Ok(String::from(
            "<table>\n<tr><td class=line-number>1</td><td class=line>\n</td></tr>\n</table>\n"
        ))
    );
}

#[test]
fn table_sets_each_line_into_a_row() {
    let lines = vec![String::from("one\n"), String::from("two\n")];
    assert_eq!(
        table_html(&lines),
        "<table>\n\
         <tr><td class=line-number>1</td><td class=line>one\n</td></tr>\n\
         <tr><td class=line-number>2</td><td class=line>two\n</td></tr>\n\
         </table>\n"
    );
}

#[test]
fn span_beyond_the_source_is_refused() {
    let events = vec![SpanEvent::Source { start: 0, end: 6 }];
    let html = html_from_events(Ok(events), b"hello", &Vec::new());
    assert_eq!(html, Err(RenderFailure::SpanOutOfBounds));
}

#[test]
fn span_that_ends_before_it_begins_is_refused() {
    let events = vec![SpanEvent::Source { start: 3, end: 2 }];
    let html = html_from_events(Ok(events), b"hello", &Vec::new());
    assert_eq!(html, Err(RenderFailure::SpanOutOfBounds));
}

#[test]
fn spans_are_checked_against_the_length() {
    let events = vec![
        SpanEvent::HighlightStart(3),
        SpanEvent::Source { start: 0, end: 4 },
        SpanEvent::HighlightEnd,
        SpanEvent::Source { start: 4, end: 4 },
    ];
    assert!(check_spans(&events, 4));
    assert!(!check_spans(&events, 3));
    assert!(check_spans(&Vec::new(), 0));
}

#[test]
fn tokenizer_failure_is_passed_on() {
    assert_eq!(
        html_from_events(Err(RenderFailure::Cancelled), b"x", &Vec::new()),
        Err(RenderFailure::Cancelled)
    );
    assert_eq!(
        html_from_events(Err(RenderFailure::InvalidLanguage), b"x", &Vec::new()),
        Err(RenderFailure::InvalidLanguage)
    );
    assert_eq!(
        html_from_events(Err(RenderFailure::Unknown), b"x", &Vec::new()),
        Err(RenderFailure::Unknown)
    );
}

#[test]
fn tokenizer_failures_keep_their_kind() {
    assert_eq!(failure_of(tree_sitter_highlight::Error::Cancelled), RenderFailure::Cancelled);
    assert_eq!(
        failure_of(tree_sitter_highlight::Error::InvalidLanguage),
        RenderFailure::InvalidLanguage
    );
    assert_eq!(failure_of(tree_sitter_highlight::Error::Unknown), RenderFailure::Unknown);
}

#[test]
fn styles_are_looked_up_by_number() {
    let styles = keyword_style();
    assert_eq!(style_bytes(&styles, 0), b"class='keyword'");
    assert_eq!(style_bytes(&styles, 1), b"");
    assert_eq!(style_bytes(&styles, 2), b"");
}

#[test]
fn numbers_are_written_in_base_ten() {
    assert_eq!(decimal_string(0), "0");
    assert_eq!(decimal_string(7), "7");
    assert_eq!(decimal_string(9), "9");
    assert_eq!(decimal_string(10), "10");
    assert_eq!(decimal_string(99), "99");
    assert_eq!(decimal_string(100), "100");
    assert_eq!(decimal_string(12345), "12345");
    assert_eq!(decimal_string(usize::MAX), format!("{}", usize::MAX));
}

#[test]
fn lowercase_turns_capitals_into_small_letters() {
    assert_eq!(to_lowercase("RuSt"), "rust");
    assert_eq!(to_lowercase(".JSON"), ".json");
    assert_eq!(to_lowercase("already"), "already");
    assert_eq!(to_lowercase("\u{c4}B"), "\u{e4}b");
}

#[test]
fn texts_are_compared_character_by_character() {
    assert!(same_text("", ""));
    assert!(same_text("rust", "rust"));
    assert!(!same_text("rust", "rusty"));
    assert!(!same_text("rust", "ruse"));
    assert!(!same_text("\u{e4}", "a"));
}
