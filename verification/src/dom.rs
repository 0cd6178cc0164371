//! Boundary to the HTML engine: the parsed-document and compiled-selector
//! types of `scraper`, one trusted wrapper per read the library makes, and
//! the fixed selector schema compiled once per session.
//!
//! A parsed document is an outside collection of nodes. What it holds, as
//! seen through a compiled selector, is given names here — the match
//! count, and the serialized HTML, text and attribute values of the
//! matches, each a function of the document, the selector and the index
//! alone — and every wrapper's contract speaks over those names. What the
//! library concludes from them is stated and proved in the callers.

use vstd::prelude::*;
use vstd::string::*;

verus! {

#[verifier::external_type_specification]
#[verifier::external_body]
pub struct ExHtml(scraper::Html);

#[verifier::external_type_specification]
#[verifier::external_body]
pub struct ExSelector(scraper::Selector);

/// The document that parsing `html` as a whole page yields: a function of
/// the text alone.
pub uninterp spec fn parsed_of(html: Seq<char>) -> scraper::Html;

/// The document that parsing `html` as a fragment in `body` context
/// yields: a function of the text alone.
pub uninterp spec fn fragment_of(html: Seq<char>) -> scraper::Html;

/// Whether `Selector::parse` accepts `pattern` as a well-formed group of
/// CSS selectors: a function of the pattern text alone.
pub uninterp spec fn sel_ok(pattern: Seq<char>) -> bool;

/// The compiled selector that `Selector::parse` yields for a well-formed
/// pattern: a function of the pattern text alone.
pub uninterp spec fn sel_of(pattern: Seq<char>) -> scraper::Selector;

/// How many elements of `doc` match `sel`, in document order.
pub uninterp spec fn doc_match_count(doc: scraper::Html, sel: scraper::Selector) -> int;

/// The value of attribute `name` on the `i`-th match of `sel` in `doc`;
/// `None` for a match without the attribute, and for `i` past the count.
pub uninterp spec fn doc_match_attr(
    doc: scraper::Html,
    sel: scraper::Selector,
    i: int,
    name: Seq<char>,
) -> Option<Seq<char>>;

/// The serialized HTML of the children of the `i`-th match of `sel` in
/// `doc`.
pub uninterp spec fn doc_match_inner_html(
    doc: scraper::Html,
    sel: scraper::Selector,
    i: int,
) -> Seq<char>;

/// The serialized HTML of the `i`-th match of `sel` in `doc`, the element
/// itself included.
pub uninterp spec fn doc_match_html(doc: scraper::Html, sel: scraper::Selector, i: int) -> Seq<
    char,
>;

/// The text of the first descendant matching `field_sel` inside the
/// `i`-th match of `row_sel` in `doc`; `None` when the row has no such
/// descendant, and for `i` past the row count.
pub uninterp spec fn row_field_text(
    doc: scraper::Html,
    row_sel: scraper::Selector,
    i: int,
    field_sel: scraper::Selector,
) -> Option<Seq<char>>;

/// Relies on `scraper::Html::parse_document`: best-effort parsing that
/// always yields a document tree, a deterministic function of the text;
/// malformed input is recorded in the document's error list instead of
/// failing the parse.
#[verifier::external_body]
pub(crate) fn parse_document(html: &str) -> (doc: scraper::Html)
    ensures
        doc == parsed_of(html@),
{
    scraper::Html::parse_document(html)
}

/// Relies on `scraper::Html::parse_fragment`: best-effort parsing of an
/// HTML fragment in `body` context, always yielding a tree, a
/// deterministic function of the text.
#[verifier::external_body]
pub(crate) fn parse_fragment(html: &str) -> (doc: scraper::Html)
    ensures
        doc == fragment_of(html@),
{
    scraper::Html::parse_fragment(html)
}

/// Relies on `scraper::Selector::parse`: `Some` exactly when the pattern
/// is a well-formed group of CSS selectors, and then the compilation of
/// that pattern; both depend on the pattern text alone.
#[verifier::external_body]
fn compile(pattern: &str) -> (r: Option<scraper::Selector>)
    ensures
        r is Some <==> sel_ok(pattern@),
        r matches Some(s) ==> s == sel_of(pattern@),
{
    scraper::Selector::parse(pattern).ok()
}

/// Relies on `scraper::Html::select`: the number of matching elements of
/// the document, in document order.
#[verifier::external_body]
pub(crate) fn match_count(doc: &scraper::Html, sel: &scraper::Selector) -> (n: usize)
    ensures
        n as int == doc_match_count(*doc, *sel),
{
    doc.select(sel).count()
}

/// Relies on `scraper::Html::select` and `scraper::ElementRef::attr`: the
/// named attribute of the `i`-th matching element, if the element carries
/// it; `None` past the last match.
#[verifier::external_body]
pub(crate) fn match_attr(
    doc: &scraper::Html,
    sel: &scraper::Selector,
    i: usize,
    name: &str,
) -> (r: Option<String>)
    ensures
        r.deep_view() == doc_match_attr(*doc, *sel, i as int, name@),
{
    match doc.select(sel).nth(i) {
        Some(el) => match el.attr(name) {
            Some(s) => Some(s.to_string()),
            None => None,
        },
        None => None,
    }
}

/// Relies on `scraper::Html::select` and `scraper::ElementRef::inner_html`:
/// the serialized HTML of the `i`-th matching element's children.
#[verifier::external_body]
pub(crate) fn match_inner_html(doc: &scraper::Html, sel: &scraper::Selector, i: usize) -> (r:
    String)
    requires
        (i as int) < doc_match_count(*doc, *sel),
    ensures
        r@ == doc_match_inner_html(*doc, *sel, i as int),
{
    match doc.select(sel).nth(i) {
        Some(el) => el.inner_html(),
        None => String::new(),
    }
}

/// Relies on `scraper::Html::select` and `scraper::ElementRef::html`: the
/// serialized HTML of the `i`-th matching element itself.
#[verifier::external_body]
pub(crate) fn match_html(doc: &scraper::Html, sel: &scraper::Selector, i: usize) -> (r: String)
    requires
        (i as int) < doc_match_count(*doc, *sel),
    ensures
        r@ == doc_match_html(*doc, *sel, i as int),
{
    match doc.select(sel).nth(i) {
        Some(el) => el.html(),
        None => String::new(),
    }
}

/// Relies on `scraper::Html::select`, `scraper::ElementRef::select` and
/// `scraper::ElementRef::inner_html`: the text of the first descendant
/// matching `field_sel` inside the `i`-th element matching `row_sel`.
#[verifier::external_body]
pub(crate) fn row_field(
    doc: &scraper::Html,
    row_sel: &scraper::Selector,
    i: usize,
    field_sel: &scraper::Selector,
) -> (r: Option<String>)
    ensures
        r.deep_view() == row_field_text(*doc, *row_sel, i as int, *field_sel),
{
    match doc.select(row_sel).nth(i) {
        Some(row) => match row.select(field_sel).next() {
            Some(el) => Some(el.inner_html()),
            None => None,
        },
        None => None,
    }
}

/// A structural pattern that the selector engine refused: a programming
/// defect, surfaced once at schema construction, never per row.
#[derive(Debug)]
pub struct PatternError {
    pub pattern: String,
}

/// Compiles one structural pattern: succeeds exactly on well-formed
/// selector syntax, yielding the compilation of that very pattern; a
/// refused pattern is reported with its own text.
pub fn compile_pattern(pattern: &str) -> (r: Result<scraper::Selector, PatternError>)
    ensures
        r is Ok <==> sel_ok(pattern@),
        r matches Ok(s) ==> s == sel_of(pattern@),
        r matches Err(e) ==> e.pattern@ == pattern@,
{
    match compile(pattern) {
        Some(s) => Ok(s),
        None => Err(PatternError { pattern: String::from_str(pattern) }),
    }
}

/// Publisher links of the publisher index page.
pub const PUBLISHER_LINKS_PATTERN: &'static str =
    "div.section > table > tbody > tr .top-publisher a";

/// Series links of a publisher's series listing.
pub const SERIES_LINKS_PATTERN: &'static str = "td.series>a";

/// Issue rows of a series' issue listing.
pub const ISSUE_ROWS_PATTERN: &'static str = "div.section > table > tbody > tr";

/// The row element inside a re-parsed single-row fragment.
pub const FRAGMENT_ROW_PATTERN: &'static str = "tr";

/// The issue-number link inside one row.
pub const ISSUE_NUMBER_PATTERN: &'static str = ".issue a";

/// The writer link inside one row.
pub const WRITER_PATTERN: &'static str = ".writer a";

/// The artist link inside one row.
pub const ARTIST_PATTERN: &'static str = ".artist a";

/// The critic rating value inside one row.
pub const CRITIC_RATING_PATTERN: &'static str = ".rating .CriticRatingList div";

/// The user rating value inside one row.
pub const USER_RATING_PATTERN: &'static str = ".rating .UserRatingList div";

/// The critic review count inside one row.
pub const CRITIC_REVIEW_COUNT_PATTERN: &'static str = ".reviews .CriticReviewNumList a";

/// The user review count inside one row.
pub const USER_REVIEW_COUNT_PATTERN: &'static str = ".reviews .UserReviewNumList a";

/// Every pattern of the schema is well-formed selector syntax.
pub open spec fn all_patterns_ok() -> bool {
    &&& sel_ok(PUBLISHER_LINKS_PATTERN@)
    &&& sel_ok(SERIES_LINKS_PATTERN@)
    &&& sel_ok(ISSUE_ROWS_PATTERN@)
    &&& sel_ok(FRAGMENT_ROW_PATTERN@)
    &&& sel_ok(ISSUE_NUMBER_PATTERN@)
    &&& sel_ok(WRITER_PATTERN@)
    &&& sel_ok(ARTIST_PATTERN@)
    &&& sel_ok(CRITIC_RATING_PATTERN@)
    &&& sel_ok(USER_RATING_PATTERN@)
    &&& sel_ok(CRITIC_REVIEW_COUNT_PATTERN@)
    &&& sel_ok(USER_REVIEW_COUNT_PATTERN@)
}

/// The first pattern of the schema, in schema order, that the selector
/// engine refuses; the empty sequence when all are accepted.
pub open spec fn first_refused_pattern() -> Seq<char> {
    if !sel_ok(PUBLISHER_LINKS_PATTERN@) {
        PUBLISHER_LINKS_PATTERN@
    } else if !sel_ok(SERIES_LINKS_PATTERN@) {
        SERIES_LINKS_PATTERN@
    } else if !sel_ok(ISSUE_ROWS_PATTERN@) {
        ISSUE_ROWS_PATTERN@
    } else if !sel_ok(FRAGMENT_ROW_PATTERN@) {
        FRAGMENT_ROW_PATTERN@
    } else if !sel_ok(ISSUE_NUMBER_PATTERN@) {
        ISSUE_NUMBER_PATTERN@
    } else if !sel_ok(WRITER_PATTERN@) {
        WRITER_PATTERN@
    } else if !sel_ok(ARTIST_PATTERN@) {
        ARTIST_PATTERN@
    } else if !sel_ok(CRITIC_RATING_PATTERN@) {
        CRITIC_RATING_PATTERN@
    } else if !sel_ok(USER_RATING_PATTERN@) {
        USER_RATING_PATTERN@
    } else if !sel_ok(CRITIC_REVIEW_COUNT_PATTERN@) {
        CRITIC_REVIEW_COUNT_PATTERN@
    } else if !sel_ok(USER_REVIEW_COUNT_PATTERN@) {
        USER_REVIEW_COUNT_PATTERN@
    } else {
        Seq::empty()
    }
}

/// The selector schema: every structural pattern the library uses,
/// compiled once at startup and shared read-only across a whole session.
pub struct Selectors {
    pub publisher_links: scraper::Selector,
    pub series_links: scraper::Selector,
    pub issue_rows: scraper::Selector,
    pub fragment_row: scraper::Selector,
    pub issue_num: scraper::Selector,
    pub writer: scraper::Selector,
    pub artist: scraper::Selector,
    pub critic_rating: scraper::Selector,
    pub user_rating: scraper::Selector,
    pub critic_review_count: scraper::Selector,
    pub user_review_count: scraper::Selector,
}

impl Selectors {
    /// Compiles the whole schema: succeeds exactly when every pattern is
    /// well-formed, failing fast on the first refused one, and then every
    /// field holds the compilation of its own pattern constant; per-row
    /// extraction never compiles a pattern.
    pub fn new() -> (r: Result<Selectors, PatternError>)
        ensures
            r is Ok <==> all_patterns_ok(),
            r matches Ok(s) ==> s.publisher_links == sel_of(PUBLISHER_LINKS_PATTERN@)
                && s.series_links == sel_of(SERIES_LINKS_PATTERN@) && s.issue_rows == sel_of(
                ISSUE_ROWS_PATTERN@,
            ) && s.fragment_row == sel_of(FRAGMENT_ROW_PATTERN@) && s.issue_num == sel_of(
                ISSUE_NUMBER_PATTERN@,
            ) && s.writer == sel_of(WRITER_PATTERN@) && s.artist == sel_of(ARTIST_PATTERN@)
                && s.critic_rating == sel_of(CRITIC_RATING_PATTERN@) && s.user_rating == sel_of(
                USER_RATING_PATTERN@,
            ) && s.critic_review_count == sel_of(CRITIC_REVIEW_COUNT_PATTERN@)
                && s.user_review_count == sel_of(USER_REVIEW_COUNT_PATTERN@),
            r matches Err(e) ==> e.pattern@ == first_refused_pattern(),
    {
        let publisher_links = match compile_pattern(PUBLISHER_LINKS_PATTERN) {
            Ok(s) => s,
            Err(e) => { return Err(e); },
        };
        let series_links = match compile_pattern(SERIES_LINKS_PATTERN) {
            Ok(s) => s,
            Err(e) => { return Err(e); },
        };
        let issue_rows = match compile_pattern(ISSUE_ROWS_PATTERN) {
            Ok(s) => s,
            Err(e) => { return Err(e); },
        };
        let fragment_row = match compile_pattern(FRAGMENT_ROW_PATTERN) {
            Ok(s) => s,
            Err(e) => { return Err(e); },
        };
        let issue_num = match compile_pattern(ISSUE_NUMBER_PATTERN) {
            Ok(s) => s,
            Err(e) => { return Err(e); },
        };
        let writer = match compile_pattern(WRITER_PATTERN) {
            Ok(s) => s,
            Err(e) => { return Err(e); },
        };
        let artist = match compile_pattern(ARTIST_PATTERN) {
            Ok(s) => s,
            Err(e) => { return Err(e); },
        };
        let critic_rating = match compile_pattern(CRITIC_RATING_PATTERN) {
            Ok(s) => s,
            Err(e) => { return Err(e); },
        };
        let user_rating = match compile_pattern(USER_RATING_PATTERN) {
            Ok(s) => s,
            Err(e) => { return Err(e); },
        };
        let critic_review_count = match compile_pattern(CRITIC_REVIEW_COUNT_PATTERN) {
            Ok(s) => s,
            Err(e) => { return Err(e); },
        };
        let user_review_count = match compile_pattern(USER_REVIEW_COUNT_PATTERN) {
            Ok(s) => s,
            Err(e) => { return Err(e); },
        };
        Ok(
            Selectors {
                publisher_links,
                series_links,
                issue_rows,
                fragment_row,
                issue_num,
                writer,
                artist,
                critic_rating,
                user_rating,
                critic_review_count,
                user_review_count,
            },
        )
    }
}

} // verus!
