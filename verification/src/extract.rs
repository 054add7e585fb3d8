//! The readable text of an HTML page: the text of its paragraph elements,
//! one paragraph per line.

use vstd::prelude::*;
use vstd::string::StringExecFns;
use vstd::utf8::encode_utf8;

verus! {

/// The CSS selector of the elements whose text is kept: HTML paragraphs.
pub const PARAGRAPH_SELECTOR: &'static str = "p";

/// The longest document source, in bytes, that is handed to the parser. The
/// parser keeps a comment, a text node or an attribute value in one buffer
/// each. Such a buffer rounds its capacity up to a power of two that must
/// fit in 32 bits, so it holds at most `0x8000_0000` bytes, and the program
/// stops where one would outgrow that. What goes into a buffer comes from
/// the source, where the parser may write three bytes for one byte that it
/// replaces (the replacement character for a NUL). Three times this limit is
/// `0x6000_0000`: no buffer comes near its end.
pub const MAX_DOCUMENT_BYTES: usize = 0x2000_0000;

/// Whether the document source is short enough for the parser.
pub open spec fn parseable(html: Seq<char>) -> bool {
    encode_utf8(html).len() <= MAX_DOCUMENT_BYTES
}

/// What `scraper` yields for the document source `html` and the CSS selector
/// group `selector`: `None` where `Selector::parse` rejects `selector`;
/// otherwise one text for each element that `Html::select` hands out of the
/// document parsed by `Html::parse_document`, in the order in which it hands
/// them out, each text being the concatenation of what `ElementRef::text`
/// iterates over (the element's descendant text nodes).
pub uninterp spec fn selected_texts(html: Seq<char>, selector: Seq<char>) -> Option<Seq<Seq<char>>>;

/// The characters held by each string of an optional list.
pub open spec fn texts_view(texts: Option<Vec<String>>) -> Option<Seq<Seq<char>>> {
    match texts {
        Some(found) => Some(found.deep_view()),
        None => None,
    }
}

/// Calls `scraper`: `Selector::parse` on `selector`, `Html::parse_document`
/// on `html`, `Html::select` on the two, and `ElementRef::text` on every
/// element selected. The contract names the outcome, as a function of the two
/// source texts: nothing in these calls looks at anything else.
///
/// Only the paragraph selector is admitted. Matching a selector with
/// relative parts or many combinators descends once for each level of the
/// document, which the parser nests without bound, while a single type
/// selector is matched against each element by itself. `Selector::parse`
/// takes that selector, as scraper's own tests do with it, so the outcome is
/// never `None` here.
///
/// Sources beyond the size limit are left out: the parser's buffers may not
/// hold what it makes of them, and it stops the program where one overflows.
#[verifier::external_body]
fn select_texts(html: &str, selector: &str) -> (texts: Option<Vec<String>>)
    requires
        parseable(html@),
        selector@ == PARAGRAPH_SELECTOR@,
    ensures
        texts_view(texts) == selected_texts(html@, selector@),
        texts is Some,
{
    let parsed = match scraper::Selector::parse(selector) {
        Ok(parsed) => parsed,
        Err(_) => return None,
    };
    let document = scraper::Html::parse_document(html);
    let mut texts: Vec<String> = Vec::new();
    for element in document.select(&parsed) {
        texts.push(element.text().collect::<String>());
    }
    Some(texts)
}

/// The lines joined by a single line feed between neighbours: nothing before
/// the first line, nothing after the last.
pub open spec fn join_lines(lines: Seq<Seq<char>>) -> Seq<char>
    decreases lines.len(),
{
    if lines.len() == 0 {
        Seq::empty()
    } else if lines.len() == 1 {
        lines[0]
    } else {
        join_lines(lines.drop_last()) + seq!['\n'] + lines.last()
    }
}

/// The text that a selection stands for: its paragraphs joined by line feeds,
/// and the empty text where there is no selection.
pub open spec fn text_of_selection(selection: Option<Seq<Seq<char>>>) -> Seq<char> {
    match selection {
        Some(paragraphs) => join_lines(paragraphs),
        None => Seq::empty(),
    }
}

/// The readable text of the document source `html`.
pub open spec fn extracted_text(html: Seq<char>) -> Seq<char> {
    text_of_selection(selected_texts(html, PARAGRAPH_SELECTOR@))
}

/// Joins the paragraphs with a line feed between neighbours.
pub fn join_paragraphs(paragraphs: &Vec<String>) -> (text: String)
    ensures
        text@ == join_lines(paragraphs.deep_view()),
{
    let mut text = String::new();
    let mut i: usize = 0;
    while i < paragraphs.len()
        invariant
            i <= paragraphs.len(),
            text@ == join_lines(paragraphs.deep_view().take(i as int)),
        decreases paragraphs.len() - i,
    {
        let ghost done = paragraphs.deep_view().take(i as int);
        let ghost more = paragraphs.deep_view().take(i + 1);
        assert(more.drop_last() == done);
        assert(more.last() == paragraphs[i as int]@);
        if i > 0 {
            text.push('\n');
        }
        text.append(paragraphs[i].as_str());
        i += 1;
    }
    assert(paragraphs.deep_view().take(i as int) == paragraphs.deep_view());
    text
}

/// The text of a selection: the paragraphs joined by line feeds, or the empty
/// text where nothing was selected.
pub fn render_selection(selection: &Option<Vec<String>>) -> (text: String)
    ensures
        text@ == text_of_selection(texts_view(*selection)),
{
    match selection {
        Some(paragraphs) => join_paragraphs(paragraphs),
        None => String::new(),
    }
}

/// Whether the document source is short enough for the parser.
pub fn is_parseable(html: &str) -> (fits: bool)
    ensures
        fits == parseable(html@),
{
    html.as_bytes().len() <= MAX_DOCUMENT_BYTES
}

/// Extracts the readable text of an HTML document: the text of every
/// paragraph element that the parser's selection yields, in that order,
/// joined by line feeds. White space is kept as it is and nothing is left
/// out: what stands in a paragraph element is part of the text. The
/// paragraph selector is never refused, so an empty text means that the
/// selected paragraphs hold no text, not that the selection failed.
pub fn extract_text(html: &str) -> (text: String)
    requires
        parseable(html@),
    ensures
        text@ == extracted_text(html@),
        selected_texts(html@, PARAGRAPH_SELECTOR@) matches Some(paragraphs) && text@ == join_lines(
            paragraphs,
        ),
{
    let selection = select_texts(html, PARAGRAPH_SELECTOR);
    render_selection(&selection)
}

/// A page in which nothing is selected has no readable text.
pub proof fn empty_selection_has_no_text()
    ensures
        text_of_selection(Some(Seq::empty())) == Seq::<char>::empty(),
{
}

} // verus!
