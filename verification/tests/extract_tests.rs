use news_getter::extract::{
    extract_text, is_parseable, join_paragraphs, render_selection, MAX_DOCUMENT_BYTES,
    PARAGRAPH_SELECTOR,
};

#[test]
fn two_paragraphs_are_joined_by_one_line_feed() {
    let text = extract_text("<html><body><p>A</p><p>B</p></body></html>");
    assert_eq!(text, "A\nB");
}

#[test]
fn document_without_paragraphs_gives_empty_text() {
    let text = extract_text("<html><body><div>A</div><span>B</span></body></html>");
    assert_eq!(text, "");
}

#[test]
fn empty_document_gives_empty_text() {
    assert_eq!(extract_text(""), "");
}

#[test]
fn single_paragraph_has_no_separator() {
    assert_eq!(extract_text("<p>only</p>"), "only");
}

#[test]
fn tags_inside_a_paragraph_are_stripped_and_their_text_kept() {
    let text = extract_text("<p>Hello, <b>bold <i>and italic</i></b> world</p>");
    assert_eq!(text, "Hello, bold and italic world");
}

#[test]
fn text_outside_paragraphs_is_left_out() {
    let text = extract_text("<h1>Title</h1><p>one</p><div>skip</div><p>two</p><ul><li>x</li></ul>");
    assert_eq!(text, "one\ntwo");
}

#[test]
fn white_space_is_kept_as_it_is() {
    let text = extract_text("<p>  a  \n b </p><p>\tc</p>");
    assert_eq!(text, "  a  \n b \n\tc");
}

#[test]
fn empty_paragraphs_still_count_as_lines() {
    let text = extract_text("<p>a</p><p></p><p>b</p>");
    assert_eq!(text, "a\n\nb");
}

#[test]
fn repeated_paragraphs_are_all_kept() {
    let text = extract_text("<p>menu</p><p>menu</p><p>story</p>");
    assert_eq!(text, "menu\nmenu\nstory");
}

#[test]
fn character_references_are_decoded_by_the_parser() {
    let text = extract_text("<p>a &amp; b &lt; c</p>");
    assert_eq!(text, "a & b < c");
}

#[test]
fn text_that_is_not_ascii_is_kept() {
    let text = extract_text("<p>Überraschung</p><p>日本語</p>");
    assert_eq!(text, "Überraschung\n日本語");
}

#[test]
fn the_text_differs_from_the_source() {
    let html = "<p>A</p>";
    assert_ne!(extract_text(html), html);
}

#[test]
fn join_of_no_paragraphs_is_empty() {
    let none: Vec<String> = Vec::new();
    assert_eq!(join_paragraphs(&none), "");
}

#[test]
fn join_puts_separators_only_between_paragraphs() {
    let three = vec!["a".to_string(), "b".to_string(), "c".to_string()];
    assert_eq!(join_paragraphs(&three), "a\nb\nc");
    let one = vec!["a".to_string()];
    assert_eq!(join_paragraphs(&one), "a");
    let with_empty = vec!["".to_string(), "".to_string()];
    assert_eq!(join_paragraphs(&with_empty), "\n");
}

#[test]
fn a_missing_selection_renders_as_empty_text() {
    assert_eq!(render_selection(&None), "");
    assert_eq!(render_selection(&Some(Vec::new())), "");
    let found = Some(vec!["x".to_string(), "y".to_string()]);
    assert_eq!(render_selection(&found), "x\ny");
}

#[test]
fn the_selector_is_the_paragraph_tag() {
    assert_eq!(PARAGRAPH_SELECTOR, "p");
}

#[test]
fn ordinary_documents_are_parseable() {
    assert!(is_parseable(""));
    assert!(is_parseable("<p>A</p>"));
    assert_eq!(MAX_DOCUMENT_BYTES, 536_870_912);
    assert!(3 * (MAX_DOCUMENT_BYTES as u64) <= 1 << 31);
}
