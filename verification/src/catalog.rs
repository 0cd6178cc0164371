//! Catalog entities and the navigation-stage string logic: publisher
//! entries derived from link targets, candidate titles, and the fixed
//! URL scheme of the review site.

use vstd::prelude::*;
use vstd::string::*;
use crate::dom;
use crate::dom::Selectors;

verus! {

/// A publisher entry of the catalog: the identifier shown to the user and
/// the URL of its series listing.
pub struct Publisher {
    pub name: String,
    pub url: String,
}

/// A candidate series title: the display name scraped from a link node and
/// the link target, kept relative as the site serves it.
pub struct Title {
    pub name: String,
    pub url: String,
}

impl Publisher {
    pub fn new(name: String, url: String) -> (p: Publisher)
        ensures
            p.name == name,
            p.url == url,
    {
        Publisher { name, url }
    }
}

impl Title {
    pub fn new(name: String, url: String) -> (t: Title)
        ensures
            t.name == name,
            t.url == url,
    {
        Title { name, url }
    }
}

/// The fixed index page listing every publisher.
pub const PUBLISHER_INDEX_URL: &'static str = "https://comicbookroundup.com/comic-books/reviews";

/// Common prefix of every absolute URL built from a relative link target.
pub const SITE_BASE_URL: &'static str = "https://comicbookroundup.com";

/// Path suffix that turns a publisher page into its full series listing.
pub const ALL_SERIES_SUFFIX: &'static str = "/all-series";

/// The text after the last `/` of `s`; `s` itself when it holds no `/`.
pub open spec fn last_segment_of(s: Seq<char>) -> Seq<char>
    decreases s.len(),
{
    if s.len() == 0 {
        s
    } else if s.last() == '/' {
        Seq::empty()
    } else {
        last_segment_of(s.drop_last()).push(s.last())
    }
}

/// The series listing of the publisher whose link target is `href`.
pub open spec fn publisher_listing_url_of(href: Seq<char>) -> Seq<char> {
    SITE_BASE_URL@ + href + ALL_SERIES_SUFFIX@
}

/// The issue listing of the series whose link target is `href`.
pub open spec fn series_detail_url_of(href: Seq<char>) -> Seq<char> {
    SITE_BASE_URL@ + href
}

proof fn lemma_last_segment_is_suffix(s: Seq<char>, i: int)
    requires
        0 <= i <= s.len(),
        forall|j: int| i <= j < s.len() ==> s[j] != '/',
        i > 0 ==> s[i - 1] == '/',
    ensures
        last_segment_of(s) == s.subrange(i, s.len() as int),
    decreases s.len(),
{
    if s.len() == i {
        if i == 0 {
            assert(last_segment_of(s) =~= s.subrange(0, 0));
        } else {
            assert(s.last() == '/');
            assert(last_segment_of(s) =~= s.subrange(i, s.len() as int));
        }
    } else {
        assert(s.last() != '/');
        lemma_last_segment_is_suffix(s.drop_last(), i);
        assert(s.drop_last().subrange(i, s.len() - 1) =~= s.subrange(i, s.len() - 1));
        assert(last_segment_of(s) =~= s.subrange(i, s.len() as int));
    }
}

/// The text after the last `/` of `s`; `s` itself when it holds no `/`.
pub fn last_path_segment(s: &str) -> (r: String)
    ensures
        r@ == last_segment_of(s@),
{
    let len: usize = s.unicode_len();
    let mut i: usize = len;
    while i > 0 && s.get_char(i - 1) != '/'
        invariant
            i <= len,
            len == s@.len(),
            forall|j: int| i <= j < s@.len() ==> s@[j] != '/',
        decreases i,
    {
        i = i - 1;
    }
    proof {
        lemma_last_segment_is_suffix(s@, i as int);
    }
    let seg = s.substring_char(i, len);
    String::from_str(seg)
}

/// Builds the absolute series-listing URL of a publisher from its link target.
pub fn publisher_listing_url(href: &str) -> (r: String)
    ensures
        r@ == publisher_listing_url_of(href@),
{
    String::from_str(SITE_BASE_URL).concat(href).concat(ALL_SERIES_SUFFIX)
}

/// Builds the absolute issue-listing URL of a series from its link target.
pub fn series_detail_url(href: &str) -> (r: String)
    ensures
        r@ == series_detail_url_of(href@),
{
    String::from_str(SITE_BASE_URL).concat(href)
}

/// The entry that one publisher link with target `href` yields: for a
/// well-formed link, the identifier is the last path segment of the target
/// and the URL points at the publisher's full series listing; a link with
/// no target degrades to an empty placeholder entry.
pub open spec fn publisher_matches(p: Publisher, href: Option<Seq<char>>) -> bool {
    match href {
        Some(h) => p.name@ == last_segment_of(h) && p.url@ == publisher_listing_url_of(h),
        None => p.name@ == Seq::<char>::empty() && p.url@ == Seq::<char>::empty(),
    }
}

/// A publisher entry from the link target of one publisher link node: the
/// identifier is the last path segment of the target. A link with no target
/// degrades to an empty placeholder entry instead of failing the listing.
pub fn publisher_from_href(href: &Option<String>) -> (p: Publisher)
    ensures
        publisher_matches(p, href.deep_view()),
{
    match href {
        Some(h) => Publisher::new(last_path_segment(h.as_str()), publisher_listing_url(h.as_str())),
        None => Publisher::new(String::new(), String::new()),
    }
}

/// One publisher entry per link target, in listing order; each entry as
/// `publisher_from_href` builds it.
pub fn publishers_from_hrefs(hrefs: &Vec<Option<String>>) -> (ps: Vec<Publisher>)
    ensures
        ps@.len() == hrefs@.len(),
        forall|k: int|
            0 <= k < hrefs@.len() ==> publisher_matches(#[trigger] ps@[k], hrefs@[k].deep_view()),
{
    let mut ps: Vec<Publisher> = Vec::new();
    let n = hrefs.len();
    let mut k: usize = 0;
    while k < n
        invariant
            k <= n,
            n == hrefs@.len(),
            ps@.len() == k,
            forall|j: int|
                0 <= j < k ==> publisher_matches(#[trigger] ps@[j], hrefs@[j].deep_view()),
        decreases n - k,
    {
        let p = publisher_from_href(&hrefs[k]);
        ps.push(p);
        k = k + 1;
    }
    ps
}

fn link_hrefs(doc: &scraper::Html, sel: &scraper::Selector, n: usize) -> (hrefs: Vec<
    Option<String>,
>)
    requires
        n as int == dom::doc_match_count(*doc, *sel),
    ensures
        hrefs@.len() == n,
        forall|k: int|
            0 <= k < n ==> (#[trigger] hrefs@[k]).deep_view() == dom::doc_match_attr(
                *doc,
                *sel,
                k,
                "href"@,
            ),
{
    let mut hrefs: Vec<Option<String>> = Vec::new();
    let mut k: usize = 0;
    while k < n
        invariant
            k <= n,
            n as int == dom::doc_match_count(*doc, *sel),
            hrefs@.len() == k,
            forall|j: int|
                0 <= j < k ==> (#[trigger] hrefs@[j]).deep_view() == dom::doc_match_attr(
                    *doc,
                    *sel,
                    j,
                    "href"@,
                ),
        decreases n - k,
    {
        let h = dom::match_attr(doc, sel, k, "href");
        hrefs.push(h);
        k = k + 1;
    }
    hrefs
}

/// The publisher-list stage: one entry per publisher link of the index
/// document, in document order, each built by `publisher_from_href` from
/// the link's `href` target — a link with no target degrades to a
/// placeholder entry instead of failing the listing.
pub fn publishers_from_document(html: &str, sels: &Selectors) -> (ps: Vec<Publisher>)
    ensures
        ps@.len() == dom::doc_match_count(dom::parsed_of(html@), sels.publisher_links),
        forall|k: int|
            0 <= k < ps@.len() ==> publisher_matches(
                #[trigger] ps@[k],
                dom::doc_match_attr(dom::parsed_of(html@), sels.publisher_links, k, "href"@),
            ),
{
    let doc = dom::parse_document(html);
    let n = dom::match_count(&doc, &sels.publisher_links);
    let hrefs = link_hrefs(&doc, &sels.publisher_links, n);
    publishers_from_hrefs(&hrefs)
}

/// The candidate that one series link yields: its display text as the
/// name, its link target as the URL, and an empty URL standing in for a
/// link with no target.
pub open spec fn title_matches(t: Title, name: Seq<char>, href: Option<Seq<char>>) -> bool {
    &&& t.name@ == name
    &&& match href {
        Some(h) => t.url@ == h,
        None => t.url@ == Seq::<char>::empty(),
    }
}

/// The candidate title that one series link node yields, as
/// `title_matches` states it.
pub fn title_from_link(name: String, href: Option<String>) -> (t: Title)
    ensures
        title_matches(t, name@, href.deep_view()),
{
    match href {
        Some(h) => Title::new(name, h),
        None => Title::new(name, String::new()),
    }
}

/// The series-list stage: one candidate title per series link of a
/// publisher's listing document, in document order, each built by
/// `title_from_link` from the link's text and `href` target.
pub fn titles_from_document(html: &str, sels: &Selectors) -> (ts: Vec<Title>)
    ensures
        ts@.len() == dom::doc_match_count(dom::parsed_of(html@), sels.series_links),
        forall|k: int|
            0 <= k < ts@.len() ==> title_matches(
                #[trigger] ts@[k],
                dom::doc_match_inner_html(dom::parsed_of(html@), sels.series_links, k),
                dom::doc_match_attr(dom::parsed_of(html@), sels.series_links, k, "href"@),
            ),
{
    let doc = dom::parse_document(html);
    let n = dom::match_count(&doc, &sels.series_links);
    let mut ts: Vec<Title> = Vec::new();
    let mut k: usize = 0;
    while k < n
        invariant
            k <= n,
            n as int == dom::doc_match_count(doc, sels.series_links),
            doc == dom::parsed_of(html@),
            ts@.len() == k,
            forall|j: int|
                0 <= j < k ==> title_matches(
                    #[trigger] ts@[j],
                    dom::doc_match_inner_html(doc, sels.series_links, j),
                    dom::doc_match_attr(doc, sels.series_links, j, "href"@),
                ),
        decreases n - k,
    {
        let name = dom::match_inner_html(&doc, &sels.series_links, k);
        let href = dom::match_attr(&doc, &sels.series_links, k, "href");
        ts.push(title_from_link(name, href));
        k = k + 1;
    }
    ts
}

} // verus!
