//! Declarative per-row field extraction and the extraction pipeline: each
//! issue row yields exactly one fully formed record, a missing sub-node
//! degrades the single field to the literal `"N/A"`, and a leading header
//! row (one with no extractable field) is excluded by an explicit,
//! named step.

use vstd::prelude::*;
use vstd::string::*;
use crate::dom;
use crate::dom::Selectors;

verus! {

/// One extracted per-issue review record. `title` is supplied by the
/// caller as the resolved series name; every other field is scraped from
/// the issue row, with `"N/A"` standing in for a field whose sub-node the
/// row lacks.
pub struct Issue {
    pub title: String,
    pub issue_num: String,
    pub writer: String,
    pub artist: String,
    pub user_review: String,
    pub critic_review: String,
    pub user_review_count: String,
    pub critic_review_count: String,
}

impl Issue {
    pub fn new(
        title: String,
        issue_num: String,
        writer: String,
        artist: String,
        user_review: String,
        critic_review: String,
        user_review_count: String,
        critic_review_count: String,
    ) -> (r: Issue)
        ensures
            r.title == title,
            r.issue_num == issue_num,
            r.writer == writer,
            r.artist == artist,
            r.user_review == user_review,
            r.critic_review == critic_review,
            r.user_review_count == user_review_count,
            r.critic_review_count == critic_review_count,
    {
        Issue {
            title,
            issue_num,
            writer,
            artist,
            user_review,
            critic_review,
            user_review_count,
            critic_review_count,
        }
    }
}

/// What one row offers to the extractor, one entry per schema field:
/// `Some` holds the text of the field's first matching sub-node, `None`
/// records that the row lacks such a sub-node.
pub struct RowFields {
    pub issue_num: Option<String>,
    pub writer: Option<String>,
    pub artist: Option<String>,
    pub user_review: Option<String>,
    pub critic_review: Option<String>,
    pub user_review_count: Option<String>,
    pub critic_review_count: Option<String>,
}

/// The extracted text of one field: the sub-node's text when the row has
/// the sub-node, the literal fallback `"N/A"` when it does not.
pub open spec fn or_na_v(o: Option<Seq<char>>) -> Seq<char> {
    match o {
        Some(s) => s,
        None => "N/A"@,
    }
}

/// `or_na_v` applied to the field as the row holds it.
pub open spec fn or_na(o: Option<String>) -> Seq<char> {
    or_na_v(o.deep_view())
}

/// A row with no extractable field at all: the mark of a header row.
pub open spec fn row_absent(f: RowFields) -> bool {
    &&& f.issue_num is None
    &&& f.writer is None
    &&& f.artist is None
    &&& f.user_review is None
    &&& f.critic_review is None
    &&& f.user_review_count is None
    &&& f.critic_review_count is None
}

/// The record that extraction owes for one row: the caller's title, and
/// each scraped field present-or-`"N/A"`.
pub open spec fn issue_matches(r: Issue, title: Seq<char>, f: RowFields) -> bool {
    &&& r.title@ == title
    &&& r.issue_num@ == or_na(f.issue_num)
    &&& r.writer@ == or_na(f.writer)
    &&& r.artist@ == or_na(f.artist)
    &&& r.user_review@ == or_na(f.user_review)
    &&& r.critic_review@ == or_na(f.critic_review)
    &&& r.user_review_count@ == or_na(f.user_review_count)
    &&& r.critic_review_count@ == or_na(f.critic_review_count)
}

fn field_or_na(o: &Option<String>) -> (r: String)
    ensures
        r@ == or_na(*o),
{
    match o {
        Some(s) => s.clone(),
        None => String::from_str("N/A"),
    }
}

/// Extracts the record of one row from what the row offers: a total
/// function, so a row with zero matched fields still yields a fully
/// formed, all-`"N/A"` record rather than an error.
pub fn extract_record(title: &str, f: &RowFields) -> (r: Issue)
    ensures
        issue_matches(r, title@, *f),
{
    Issue::new(
        String::from_str(title),
        field_or_na(&f.issue_num),
        field_or_na(&f.writer),
        field_or_na(&f.artist),
        field_or_na(&f.user_review),
        field_or_na(&f.critic_review),
        field_or_na(&f.user_review_count),
        field_or_na(&f.critic_review_count),
    )
}

/// Tells a header row: one with no extractable field at all.
pub fn is_header_row(f: &RowFields) -> (b: bool)
    ensures
        b == row_absent(*f),
{
    f.issue_num.is_none() && f.writer.is_none() && f.artist.is_none() && f.user_review.is_none()
        && f.critic_review.is_none() && f.user_review_count.is_none()
        && f.critic_review_count.is_none()
}

/// The rows left for extraction: the first row is excluded exactly when
/// it is a header row, every data row stays.
pub open spec fn spec_strip_header(rows: Seq<RowFields>) -> Seq<RowFields> {
    if rows.len() > 0 && row_absent(rows[0]) {
        rows.drop_first()
    } else {
        rows
    }
}

/// The explicit header-exclusion step: drops the first row exactly when
/// it shows no extractable field, instead of dropping it positionally.
pub fn strip_leading_header(rows: Vec<RowFields>) -> (r: Vec<RowFields>)
    ensures
        r@ == spec_strip_header(rows@),
{
    let ghost orig = rows@;
    let mut rows = rows;
    if rows.len() > 0 && is_header_row(&rows[0]) {
        rows.remove(0);
        assert(rows@ =~= spec_strip_header(orig));
    }
    rows
}

/// Header-exclusion law: a listing whose first row is a header (no
/// extractable field) and whose remaining rows are the data rows leaves
/// exactly the data rows for extraction — one record per data row, never
/// one for the header.
pub proof fn lemma_header_excluded(rows: Seq<RowFields>)
    requires
        rows.len() > 0,
        row_absent(rows[0]),
    ensures
        spec_strip_header(rows) == rows.drop_first(),
        spec_strip_header(rows).len() == rows.len() - 1,
{
}

/// A listing with no leading header loses no row to the exclusion step.
pub proof fn lemma_no_header_kept(rows: Seq<RowFields>)
    requires
        rows.len() == 0 || !row_absent(rows[0]),
    ensures
        spec_strip_header(rows) == rows,
{
}

/// Extracts one record per row, in row order: always exactly as many
/// records as rows, whatever the rows hold, each record as
/// `extract_record` builds it.
pub fn extract_all(rows: &Vec<RowFields>, title: &str) -> (r: Vec<Issue>)
    ensures
        r@.len() == rows@.len(),
        forall|i: int|
            0 <= i < rows@.len() ==> issue_matches(#[trigger] r@[i], title@, rows@[i]),
{
    let n = rows.len();
    let mut r: Vec<Issue> = Vec::new();
    let mut k: usize = 0;
    while k < n
        invariant
            k <= n,
            n == rows@.len(),
            r@.len() == k,
            forall|i: int| 0 <= i < k ==> issue_matches(#[trigger] r@[i], title@, rows@[i]),
        decreases n - k,
    {
        let rec = extract_record(title, &rows[k]);
        r.push(rec);
        k = k + 1;
    }
    r
}

/// How many slots already hold a result.
spec fn count_some(s: Seq<Option<RowFields>>) -> int
    decreases s.len(),
{
    if s.len() == 0 {
        0
    } else {
        count_some(s.drop_last()) + if s.last() is Some {
            1int
        } else {
            0int
        }
    }
}

proof fn lemma_count_some_bound(s: Seq<Option<RowFields>>)
    ensures
        0 <= count_some(s) <= s.len(),
    decreases s.len(),
{
    if s.len() > 0 {
        lemma_count_some_bound(s.drop_last());
    }
}

proof fn lemma_count_some_update(s: Seq<Option<RowFields>>, i: int, f: RowFields)
    requires
        0 <= i < s.len(),
        s[i] is None,
    ensures
        count_some(s.update(i, Some(f))) == count_some(s) + 1,
    decreases s.len(),
{
    if i == s.len() - 1 {
        assert(s.update(i, Some(f)).drop_last() =~= s.drop_last());
    } else {
        lemma_count_some_update(s.drop_last(), i, f);
        assert(s.update(i, Some(f)).drop_last() =~= s.drop_last().update(i, Some(f)));
        assert(s.update(i, Some(f)).last() == s.last());
    }
}

proof fn lemma_count_some_full(s: Seq<Option<RowFields>>)
    requires
        count_some(s) == s.len(),
    ensures
        forall|w: int| 0 <= w < s.len() ==> s[w] is Some,
    decreases s.len(),
{
    if s.len() > 0 {
        lemma_count_some_bound(s.drop_last());
        assert(s.last() is Some);
        lemma_count_some_full(s.drop_last());
        assert forall|w: int| 0 <= w < s.len() implies s[w] is Some by {
            if w < s.len() - 1 {
                assert(s[w] == s.drop_last()[w]);
            }
        }
    }
}

/// Aggregation law of the pipeline: per-row results that come back in any
/// completion order, each tagged with its row index, reassemble into
/// exactly the sequential row-order collection — no update is lost and
/// none is invented. `None` reports a tag multiset that cannot come from
/// one dispatch: a tag at or beyond the row count, or the same tag twice;
/// tags that are exactly the row indices always reassemble.
#[verifier::loop_isolation(false)]
pub fn assemble_in_order(tagged: Vec<(usize, RowFields)>) -> (r: Option<Vec<RowFields>>)
    ensures
        r matches Some(v) ==> v@.len() == tagged@.len() && (forall|j: int|
            0 <= j < tagged@.len() ==> 0 <= (#[trigger] tagged@[j]).0 < tagged@.len() && v@[
                tagged@[j].0 as int] == tagged@[j].1),
        ((forall|j: int| 0 <= j < tagged@.len() ==> (#[trigger] tagged@[j]).0 < tagged@.len())
            && (forall|j1: int, j2: int|
            0 <= j1 < j2 < tagged@.len() ==> (#[trigger] tagged@[j1]).0 != (
            #[trigger] tagged@[j2]).0)) ==> r is Some,
{
    let ghost orig = tagged@;
    let n = tagged.len();
    let mut tagged = tagged;
    let mut slots: Vec<Option<RowFields>> = Vec::new();
    let mut k: usize = 0;
    while k < n
        invariant
            k <= n,
            slots@.len() == k,
            count_some(slots@) == 0,
            forall|w: int| 0 <= w < k ==> slots@[w] is None,
        decreases n - k,
    {
        let ghost pre = slots@;
        slots.push(None);
        assert(slots@.drop_last() =~= pre);
        k = k + 1;
    }
    proof {
        assert(orig.subrange(0, n as int) =~= orig);
    }
    while tagged.len() > 0
        invariant
            slots@.len() == n,
            n == orig.len(),
            tagged@.len() <= n,
            tagged@ == orig.subrange(0, tagged@.len() as int),
            count_some(slots@) == n - tagged@.len(),
            forall|w: int|
                0 <= w < n && slots@[w] is Some ==> exists|j: int|
                    tagged@.len() <= j < n && (#[trigger] orig[j]).0 == w && orig[j].1 == slots@[w]->0,
            forall|j: int|
                tagged@.len() <= j < n ==> 0 <= (#[trigger] orig[j]).0 < n && slots@[orig[j].0 as int]
                    == Some(orig[j].1),
        decreases tagged@.len(),
    {
        let ghost pre = tagged@;
        let e = tagged.pop().unwrap();
        let ghost jl = tagged@.len() as int;
        proof {
            assert(pre[jl] == e);
            assert(orig[jl] == e);
            assert(tagged@ =~= orig.subrange(0, jl));
        }
        let (i, f) = e;
        if i >= n {
            proof {
                assert(orig[jl].0 >= orig.len());
                assert(!(forall|j: int|
                    0 <= j < orig.len() ==> (#[trigger] orig[j]).0 < orig.len()));
            }
            return None;
        }
        if slots[i].is_some() {
            proof {
                let j2 = choose|j: int|
                    pre.len() <= j < n && (#[trigger] orig[j]).0 == i as int && orig[j].1
                        == slots@[i as int]->0;
                assert(orig[jl].0 == orig[j2].0);
                assert(0 <= jl < j2 < orig.len());
                assert(!(forall|j1: int, j2v: int|
                    0 <= j1 < j2v < orig.len() ==> (#[trigger] orig[j1]).0 != (
                    #[trigger] orig[j2v]).0));
            }
            return None;
        }
        let ghost preslots = slots@;
        slots.set(i, Some(f));
        proof {
            lemma_count_some_update(preslots, i as int, f);
        }
    }
    proof {
        lemma_count_some_full(slots@);
    }
    let ghost filled = slots@;
    proof {
        assert(forall|w: int| 0 <= w < n ==> filled[w] is Some);
        assert(forall|j: int|
            0 <= j < n ==> 0 <= (#[trigger] orig[j]).0 < n && filled[orig[j].0 as int] == Some(
            orig[j].1));
    }
    let mut rev: Vec<RowFields> = Vec::new();
    while slots.len() > 0
        invariant
            n == filled.len(),
            slots@ == filled.subrange(0, slots@.len() as int),
            rev@.len() + slots@.len() == n,
            forall|w: int| 0 <= w < n ==> filled[w] is Some,
            forall|w: int| 0 <= w < rev@.len() ==> rev@[w] == filled[n - 1 - w]->0,
        decreases slots@.len(),
    {
        let ghost pres = slots@;
        let s = slots.pop().unwrap();
        proof {
            assert(s == filled[pres.len() - 1]);
            assert(slots@ =~= filled.subrange(0, slots@.len() as int));
        }
        match s {
            Some(f) => {
                rev.push(f);
            },
            None => {
                proof {
                    assert(false);
                }
                return None;
            },
        }
    }
    let mut v: Vec<RowFields> = Vec::new();
    while rev.len() > 0
        invariant
            n == filled.len(),
            rev@.len() + v@.len() == n,
            forall|w: int| 0 <= w < rev@.len() ==> rev@[w] == filled[n - 1 - w]->0,
            forall|w: int| 0 <= w < v@.len() ==> v@[w] == filled[w]->0,
        decreases rev@.len(),
    {
        let ghost prer = rev@;
        let f = rev.pop().unwrap();
        proof {
            assert(f == filled[n - prer.len()]->0);
        }
        v.push(f);
    }
    proof {
        assert(v@.len() == orig.len());
        assert forall|j: int|
            0 <= j < orig.len() implies 0 <= (#[trigger] orig[j]).0 < orig.len() && v@[orig[j].0
            as int] == orig[j].1 by {
            assert(filled[orig[j].0 as int] == Some(orig[j].1));
            assert(v@[orig[j].0 as int] == filled[orig[j].0 as int]->0);
        }
    }
    Some(v)
}

/// What the `i`-th row of `doc` under `rows_sel` offers for each schema
/// field, as `f` records it: field by field, the text of the row's first
/// matching sub-node, or nothing.
pub open spec fn row_fields_match(
    f: RowFields,
    doc: scraper::Html,
    rows_sel: scraper::Selector,
    i: int,
    sels: Selectors,
) -> bool {
    &&& f.issue_num.deep_view() == dom::row_field_text(doc, rows_sel, i, sels.issue_num)
    &&& f.writer.deep_view() == dom::row_field_text(doc, rows_sel, i, sels.writer)
    &&& f.artist.deep_view() == dom::row_field_text(doc, rows_sel, i, sels.artist)
    &&& f.user_review.deep_view() == dom::row_field_text(doc, rows_sel, i, sels.user_rating)
    &&& f.critic_review.deep_view() == dom::row_field_text(doc, rows_sel, i, sels.critic_rating)
    &&& f.user_review_count.deep_view() == dom::row_field_text(
        doc,
        rows_sel,
        i,
        sels.user_review_count,
    )
    &&& f.critic_review_count.deep_view() == dom::row_field_text(
        doc,
        rows_sel,
        i,
        sels.critic_review_count,
    )
}

/// The `i`-th row of `doc` shows no extractable field at all: the mark of
/// a header row, stated at the document level.
pub open spec fn row_absent_at(
    doc: scraper::Html,
    rows_sel: scraper::Selector,
    i: int,
    sels: Selectors,
) -> bool {
    &&& dom::row_field_text(doc, rows_sel, i, sels.issue_num) is None
    &&& dom::row_field_text(doc, rows_sel, i, sels.writer) is None
    &&& dom::row_field_text(doc, rows_sel, i, sels.artist) is None
    &&& dom::row_field_text(doc, rows_sel, i, sels.user_rating) is None
    &&& dom::row_field_text(doc, rows_sel, i, sels.critic_rating) is None
    &&& dom::row_field_text(doc, rows_sel, i, sels.user_review_count) is None
    &&& dom::row_field_text(doc, rows_sel, i, sels.critic_review_count) is None
}

/// The record owed for the `i`-th row of `doc`: the caller's title, and
/// each schema field present-or-`"N/A"`, stated at the document level.
pub open spec fn issue_matches_at(
    r: Issue,
    title: Seq<char>,
    doc: scraper::Html,
    rows_sel: scraper::Selector,
    i: int,
    sels: Selectors,
) -> bool {
    &&& r.title@ == title
    &&& r.issue_num@ == or_na_v(dom::row_field_text(doc, rows_sel, i, sels.issue_num))
    &&& r.writer@ == or_na_v(dom::row_field_text(doc, rows_sel, i, sels.writer))
    &&& r.artist@ == or_na_v(dom::row_field_text(doc, rows_sel, i, sels.artist))
    &&& r.user_review@ == or_na_v(dom::row_field_text(doc, rows_sel, i, sels.user_rating))
    &&& r.critic_review@ == or_na_v(dom::row_field_text(doc, rows_sel, i, sels.critic_rating))
    &&& r.user_review_count@ == or_na_v(
        dom::row_field_text(doc, rows_sel, i, sels.user_review_count),
    )
    &&& r.critic_review_count@ == or_na_v(
        dom::row_field_text(doc, rows_sel, i, sels.critic_review_count),
    )
}

fn read_row(
    doc: &scraper::Html,
    rows_sel: &scraper::Selector,
    i: usize,
    sels: &Selectors,
) -> (f: RowFields)
    ensures
        row_fields_match(f, *doc, *rows_sel, i as int, *sels),
{
    RowFields {
        issue_num: dom::row_field(doc, rows_sel, i, &sels.issue_num),
        writer: dom::row_field(doc, rows_sel, i, &sels.writer),
        artist: dom::row_field(doc, rows_sel, i, &sels.artist),
        user_review: dom::row_field(doc, rows_sel, i, &sels.user_rating),
        critic_review: dom::row_field(doc, rows_sel, i, &sels.critic_rating),
        user_review_count: dom::row_field(doc, rows_sel, i, &sels.user_review_count),
        critic_review_count: dom::row_field(doc, rows_sel, i, &sels.critic_review_count),
    }
}

fn read_rows(
    doc: &scraper::Html,
    rows_sel: &scraper::Selector,
    n: usize,
    sels: &Selectors,
) -> (r: Vec<RowFields>)
    ensures
        r@.len() == n,
        forall|i: int|
            0 <= i < n ==> row_fields_match(#[trigger] r@[i], *doc, *rows_sel, i, *sels),
{
    let mut r: Vec<RowFields> = Vec::new();
    let mut k: usize = 0;
    while k < n
        invariant
            k <= n,
            r@.len() == k,
            forall|i: int|
                0 <= i < k ==> row_fields_match(#[trigger] r@[i], *doc, *rows_sel, i, *sels),
        decreases n - k,
    {
        let f = read_row(doc, rows_sel, k, sels);
        r.push(f);
        k = k + 1;
    }
    r
}

/// The whole pipeline on one issue-listing document, row order kept:
/// select the issue rows, read what each offers, exclude a leading header
/// row (one with no extractable field), and extract one record per
/// remaining row — each record's fields exactly the row's text
/// present-or-`"N/A"`, under the caller's title.
pub fn extract_issues_from_document(html: &str, sels: &Selectors, title: &str) -> (r: Vec<Issue>)
    ensures
        ({
            let doc = dom::parsed_of(html@);
            let m = dom::doc_match_count(doc, sels.issue_rows);
            if m > 0 && row_absent_at(doc, sels.issue_rows, 0, *sels) {
                r@.len() == m - 1 && (forall|j: int|
                    0 <= j < r@.len() ==> issue_matches_at(
                        #[trigger] r@[j],
                        title@,
                        doc,
                        sels.issue_rows,
                        j + 1,
                        *sels,
                    ))
            } else {
                r@.len() == m && (forall|j: int|
                    0 <= j < r@.len() ==> issue_matches_at(
                        #[trigger] r@[j],
                        title@,
                        doc,
                        sels.issue_rows,
                        j,
                        *sels,
                    ))
            }
        }),
{
    let doc = dom::parse_document(html);
    let n = dom::match_count(&doc, &sels.issue_rows);
    let fields = read_rows(&doc, &sels.issue_rows, n, sels);
    let data = strip_leading_header(fields);
    let r = extract_all(&data, title);
    proof {
        let doc_s = dom::parsed_of(html@);
        let m = dom::doc_match_count(doc_s, sels.issue_rows);
        if m > 0 && row_absent_at(doc_s, sels.issue_rows, 0, *sels) {
            assert(row_absent(fields@[0]));
            assert(data@ == fields@.drop_first());
            assert forall|j: int|
                0 <= j < r@.len() implies issue_matches_at(
                #[trigger] r@[j],
                title@,
                doc_s,
                sels.issue_rows,
                j + 1,
                *sels,
            ) by {
                assert(data@[j] == fields@[j + 1]);
                assert(issue_matches(r@[j], title@, data@[j]));
                assert(row_fields_match(fields@[j + 1], doc_s, sels.issue_rows, j + 1, *sels));
            }
        } else {
            if m > 0 {
                assert(row_fields_match(fields@[0], doc_s, sels.issue_rows, 0, *sels));
                assert(!row_absent(fields@[0]));
            }
            assert(data@ == fields@);
            assert forall|j: int|
                0 <= j < r@.len() implies issue_matches_at(
                #[trigger] r@[j],
                title@,
                doc_s,
                sels.issue_rows,
                j,
                *sels,
            ) by {
                assert(issue_matches(r@[j], title@, data@[j]));
                assert(row_fields_match(fields@[j], doc_s, sels.issue_rows, j, *sels));
            }
        }
    }
    r
}

/// The issue rows of one listing document, each serialized back to its
/// own HTML, in row order: the unit of work a caller may hand out to
/// parallel workers, each worker re-reading its row through
/// `row_fields_from_fragment`.
pub fn issue_row_fragments(html: &str, sels: &Selectors) -> (r: Vec<String>)
    ensures
        r@.len() == dom::doc_match_count(dom::parsed_of(html@), sels.issue_rows),
        forall|i: int|
            0 <= i < r@.len() ==> (#[trigger] r@[i])@ == dom::doc_match_html(
                dom::parsed_of(html@),
                sels.issue_rows,
                i,
            ),
{
    let doc = dom::parse_document(html);
    let n = dom::match_count(&doc, &sels.issue_rows);
    let mut r: Vec<String> = Vec::new();
    let mut k: usize = 0;
    while k < n
        invariant
            k <= n,
            n as int == dom::doc_match_count(doc, sels.issue_rows),
            doc == dom::parsed_of(html@),
            r@.len() == k,
            forall|i: int|
                0 <= i < k ==> (#[trigger] r@[i])@ == dom::doc_match_html(
                    doc,
                    sels.issue_rows,
                    i,
                ),
        decreases n - k,
    {
        let h = dom::match_html(&doc, &sels.issue_rows, k);
        r.push(h);
        k = k + 1;
    }
    r
}

/// The fragment document that one serialized row re-parses into: the row
/// is wrapped in a table context first, since fragment parsing in `body`
/// context would discard a bare `tr`.
pub open spec fn fragment_doc_of(row_html: Seq<char>) -> scraper::Html {
    dom::fragment_of("<table>"@ + row_html + "</table>"@)
}

/// Reads one serialized row on its own: what the fragment's first row
/// offers for each schema field, and nothing at all when the fragment
/// holds no row.
pub fn row_fields_from_fragment(row_html: &str, sels: &Selectors) -> (f: RowFields)
    ensures
        dom::doc_match_count(fragment_doc_of(row_html@), sels.fragment_row) > 0
            ==> row_fields_match(f, fragment_doc_of(row_html@), sels.fragment_row, 0, *sels),
        dom::doc_match_count(fragment_doc_of(row_html@), sels.fragment_row) <= 0 ==> row_absent(
            f,
        ),
{
    let wrapped = String::from_str("<table>").concat(row_html).concat("</table>");
    proof {
        assert(wrapped@ =~= "<table>"@ + row_html@ + "</table>"@);
    }
    let doc = dom::parse_fragment(wrapped.as_str());
    let n = dom::match_count(&doc, &sels.fragment_row);
    if n > 0 {
        read_row(&doc, &sels.fragment_row, 0, sels)
    } else {
        RowFields {
            issue_num: None,
            writer: None,
            artist: None,
            user_review: None,
            critic_review: None,
            user_review_count: None,
            critic_review_count: None,
        }
    }
}

} // verus!
