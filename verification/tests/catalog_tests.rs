use comic_catalog::catalog::{
    publisher_from_href, publishers_from_document, series_detail_url, title_from_link,
    titles_from_document, last_path_segment, Publisher, Title, PUBLISHER_INDEX_URL,
};
use comic_catalog::dom::Selectors;

#[test]
fn publisher_index_url_is_fixed() {
    assert_eq!(
        PUBLISHER_INDEX_URL,
        "https://comicbookroundup.com/comic-books/reviews"
    );
}

#[test]
fn last_path_segment_cases() {
    assert_eq!(last_path_segment("/publisher/marvel-comics"), "marvel-comics");
    assert_eq!(last_path_segment("plain"), "plain");
    assert_eq!(last_path_segment("a/b/c"), "c");
    assert_eq!(last_path_segment("trailing/"), "");
    assert_eq!(last_path_segment(""), "");
}

#[test]
fn publisher_entry_from_href() {
    let p = publisher_from_href(&Some("/publisher/marvel-comics".to_string()));
    assert_eq!(p.name, "marvel-comics");
    assert_eq!(
        p.url,
        "https://comicbookroundup.com/publisher/marvel-comics/all-series"
    );
}

#[test]
fn publisher_entry_from_missing_href_is_placeholder() {
    let p = publisher_from_href(&None);
    assert_eq!(p.name, "");
    assert_eq!(p.url, "");
}

#[test]
fn series_detail_url_prepends_base() {
    assert_eq!(
        series_detail_url("/comic-books/reviews/marvel-comics/amazing"),
        "https://comicbookroundup.com/comic-books/reviews/marvel-comics/amazing"
    );
}

#[test]
fn publisher_new_keeps_fields() {
    let p = Publisher::new("dc-comics".to_string(), "url".to_string());
    assert_eq!(p.name, "dc-comics");
    assert_eq!(p.url, "url");
}

#[test]
fn title_new_keeps_fields() {
    let t = Title::new("Saga".to_string(), "/series/saga".to_string());
    assert_eq!(t.name, "Saga");
    assert_eq!(t.url, "/series/saga");
}

#[test]
fn title_from_link_uses_href() {
    let t = title_from_link("Saga".to_string(), Some("/series/saga".to_string()));
    assert_eq!(t.name, "Saga");
    assert_eq!(t.url, "/series/saga");
}

#[test]
fn title_from_link_without_href_is_placeholder_url() {
    let t = title_from_link("Saga".to_string(), None);
    assert_eq!(t.name, "Saga");
    assert_eq!(t.url, "");
}

#[test]
fn publishers_from_listing_fixture() {
    let sels = Selectors::new().unwrap();
    let html = "<html><body><div class=\"section\"><table>\
        <tr><td class=\"top-publisher\"><a href=\"/publisher/marvel-comics\">Marvel</a></td></tr>\
        <tr><td class=\"top-publisher\"><a href=\"/publisher/dc-comics\">DC</a></td></tr>\
        </table></div></body></html>";
    let ps = publishers_from_document(html, &sels);
    assert_eq!(ps.len(), 2);
    assert_eq!(ps[0].name, "marvel-comics");
    assert_eq!(
        ps[0].url,
        "https://comicbookroundup.com/publisher/marvel-comics/all-series"
    );
    assert_eq!(ps[1].name, "dc-comics");
}

#[test]
fn publisher_link_without_href_degrades_to_placeholder() {
    let sels = Selectors::new().unwrap();
    let html = "<html><body><div class=\"section\"><table>\
        <tr><td class=\"top-publisher\"><a>NoLink</a></td></tr>\
        <tr><td class=\"top-publisher\"><a href=\"/publisher/image\">Image</a></td></tr>\
        </table></div></body></html>";
    let ps = publishers_from_document(html, &sels);
    assert_eq!(ps.len(), 2);
    assert_eq!(ps[0].name, "");
    assert_eq!(ps[0].url, "");
    assert_eq!(ps[1].name, "image");
}

#[test]
fn titles_from_listing_fixture() {
    let sels = Selectors::new().unwrap();
    let html = "<html><body><table>\
        <tr><td class=\"series\"><a href=\"/series/saga\">Saga</a></td></tr>\
        <tr><td class=\"series\"><a href=\"/series/paper-girls\">Paper Girls</a></td></tr>\
        </table></body></html>";
    let ts = titles_from_document(html, &sels);
    assert_eq!(ts.len(), 2);
    assert_eq!(ts[0].name, "Saga");
    assert_eq!(ts[0].url, "/series/saga");
    assert_eq!(ts[1].name, "Paper Girls");
    assert_eq!(ts[1].url, "/series/paper-girls");
}
