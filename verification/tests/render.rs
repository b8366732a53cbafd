//! The generic consumer: one rendered line per pair.

use textpair::render::render_line;
use textpair::render::render_pairs;
use textpair::sustained::SelfSustainedPair;
use textpair::sustained::SpanOrOwned;
use textpair::text::CowStr;

#[test]
fn two_tuples_two_lines() {
    let pairs = vec![
        ("foo".to_string(), "bar".to_string()),
        ("hello".to_string(), "world".to_string()),
    ];
    let lines = render_pairs(&pairs);
    assert_eq!(lines.len(), 2);
    assert_eq!(lines[0], "\"foo\" \"bar\"");
    assert_eq!(lines[1], "\"hello\" \"world\"");
}

#[test]
fn sustained_pairs_render_in_order() {
    let mut pairs: Vec<SelfSustainedPair> = Vec::new();
    for s in ["ab", "cd", "ef"] {
        let p = SelfSustainedPair::new(s.to_string(), |line: &str| {
            (
                SpanOrOwned::Span { start: 0, end: 1 },
                SpanOrOwned::Owned(line[1..].to_ascii_uppercase()),
            )
        })
        .unwrap();
        pairs.push(p);
    }
    let lines = render_pairs(&pairs);
    assert_eq!(lines.len(), 3);
    assert_eq!(lines[0], "\"a\" \"B\"");
    assert_eq!(lines[1], "\"c\" \"D\"");
    assert_eq!(lines[2], "\"e\" \"F\"");
}

#[test]
fn array_pairs_render() {
    let pairs = vec![["one", "two"], ["three", "four"]];
    let lines = render_pairs(&pairs);
    assert_eq!(lines, vec!["\"one\" \"two\"", "\"three\" \"four\""]);
}

#[test]
fn cow_pair_renders() {
    let txt = "AB".to_string();
    let p = (CowStr::Borrowed(&txt[..1]), CowStr::Owned("B".to_string()));
    assert_eq!(render_line(&p), "\"A\" \"B\"");
}

#[test]
fn empty_elements_render_as_bare_quotes() {
    let line = render_line(&("".to_string(), "".to_string()));
    assert_eq!(line, "\"\" \"\"");
}

#[test]
fn no_pairs_no_lines() {
    let pairs: Vec<(String, String)> = Vec::new();
    let lines = render_pairs(&pairs);
    assert!(lines.is_empty());
}
