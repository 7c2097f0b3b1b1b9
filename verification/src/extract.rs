//! Title extraction from an HTML document body.
//!
//! Parsing is tolerant: malformed markup degrades to "no matching element",
//! never to a failure, so extraction always produces a text value. A title's
//! own content is interpreted as markup too: nested tags inside the title
//! contribute their text, not their brackets.

use vstd::prelude::*;
use vstd::string::StringExecFns;

verus! {

/// The raw content of the first `title` element of `body` parsed as HTML:
/// the concatenation of that element's text-node descendants in document
/// order, or `None` when the document has no `title` element. The value is a
/// function of the characters of `body` alone.
pub uninterp spec fn raw_title_of(body: Seq<char>) -> Option<Seq<char>>;

/// The text content of `s` parsed as an HTML fragment: the concatenation of
/// the fragment's text nodes in document order, markup stripped. The value
/// is a function of the characters of `s` alone.
pub uninterp spec fn text_of_markup(s: Seq<char>) -> Seq<char>;

/// The sentinel reported for a document without a `title` element.
pub open spec fn no_title_sentinel() -> Seq<char> {
    "No Title Found"@
}

/// What `extract_title` owes for `body`: the first `title` element's content
/// with any nested markup reduced to its text, or the fixed sentinel when
/// the document has no `title` element.
pub open spec fn title_spec(body: Seq<char>) -> Seq<char> {
    match raw_title_of(body) {
        Some(raw) => text_of_markup(raw),
        None => no_title_sentinel(),
    }
}

/// Relies on scraper: `Html::parse_document` parses any input leniently and
/// never fails; `Selector::parse` succeeds on the constant, well-formed
/// selector `title`; `Html::select` yields the matching elements in document
/// order; `ElementRef::text` yields the element's text-node descendants in
/// document order, here joined into one string. The outcome depends on the
/// characters of `body` alone.
#[verifier::external_body]
fn scrape_raw_title(body: &str) -> (r: Option<String>)
    ensures
        (match r {
            Some(t) => Some(t@),
            None => None,
        }) == raw_title_of(body@),
{
    let document = scraper::Html::parse_document(body);
    let selector = scraper::Selector::parse("title").unwrap();
    document
        .select(&selector)
        .next()
        .map(|element| element.text().collect::<Vec<_>>().join(""))
}

/// Relies on scraper: `Html::parse_fragment` parses any input leniently and
/// never fails; `Html::root_element` is the fragment's root, whose
/// `ElementRef::text` yields every text node in document order, here joined
/// into one string. The outcome depends on the characters of `s` alone.
#[verifier::external_body]
fn fragment_text(s: &str) -> (r: String)
    ensures
        r@ == text_of_markup(s@),
{
    let fragment = scraper::Html::parse_fragment(s);
    fragment.root_element().text().collect::<Vec<_>>().join("")
}

/// The title to report for an extraction outcome: the found text when there
/// is one, the fixed sentinel otherwise.
pub fn title_or_default(found: Option<String>) -> (r: String)
    ensures
        found matches Some(t) ==> r@ == t@,
        found is None ==> r@ == no_title_sentinel(),
{
    match found {
        Some(t) => t,
        None => String::from_str("No Title Found"),
    }
}

/// Extracts the title of an HTML document: the text of the first `title`
/// element — nested markup inside it reduced to its concatenated text — or
/// the sentinel when no `title` element exists. There is no error channel:
/// unparseable input yields the sentinel, not a failure.
pub fn extract_title(body: &str) -> (r: String)
    ensures
        r@ == title_spec(body@),
{
    let found = match scrape_raw_title(body) {
        Some(raw) => Some(fragment_text(raw.as_str())),
        None => None,
    };
    title_or_default(found)
}

} // verus!
