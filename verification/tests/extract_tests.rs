use comic_catalog::dom::{compile_pattern, Selectors};
use comic_catalog::extract::{
    assemble_in_order, extract_all, extract_issues_from_document, extract_record, is_header_row,
    issue_row_fragments, row_fields_from_fragment, strip_leading_header, Issue, RowFields,
};

fn empty_row() -> RowFields {
    RowFields {
        issue_num: None,
        writer: None,
        artist: None,
        user_review: None,
        critic_review: None,
        user_review_count: None,
        critic_review_count: None,
    }
}

fn row_with(writer: &str, artist: &str) -> RowFields {
    RowFields {
        issue_num: Some("#1".to_string()),
        writer: Some(writer.to_string()),
        artist: Some(artist.to_string()),
        user_review: Some("7.5".to_string()),
        critic_review: Some("8.0".to_string()),
        user_review_count: Some("34".to_string()),
        critic_review_count: Some("12".to_string()),
    }
}

#[test]
fn selectors_compile() {
    assert!(Selectors::new().is_ok());
}

#[test]
fn refused_pattern_reports_its_text() {
    let r = compile_pattern(":::");
    assert!(r.is_err());
    assert_eq!(r.err().unwrap().pattern, ":::");
}

#[test]
fn issue_new_keeps_fields() {
    let i = Issue::new(
        "T".to_string(),
        "#1".to_string(),
        "W".to_string(),
        "A".to_string(),
        "7.5".to_string(),
        "8.0".to_string(),
        "34".to_string(),
        "12".to_string(),
    );
    assert_eq!(i.title, "T");
    assert_eq!(i.issue_num, "#1");
    assert_eq!(i.writer, "W");
    assert_eq!(i.artist, "A");
    assert_eq!(i.user_review, "7.5");
    assert_eq!(i.critic_review, "8.0");
    assert_eq!(i.user_review_count, "34");
    assert_eq!(i.critic_review_count, "12");
}

#[test]
fn record_of_empty_row_is_all_fallback() {
    let r = extract_record("X", &empty_row());
    assert_eq!(r.title, "X");
    assert_eq!(r.issue_num, "N/A");
    assert_eq!(r.writer, "N/A");
    assert_eq!(r.artist, "N/A");
    assert_eq!(r.user_review, "N/A");
    assert_eq!(r.critic_review, "N/A");
    assert_eq!(r.user_review_count, "N/A");
    assert_eq!(r.critic_review_count, "N/A");
}

#[test]
fn record_of_full_row_copies_fields() {
    let r = extract_record("Saga", &row_with("Vaughan", "Staples"));
    assert_eq!(r.title, "Saga");
    assert_eq!(r.issue_num, "#1");
    assert_eq!(r.writer, "Vaughan");
    assert_eq!(r.artist, "Staples");
    assert_eq!(r.user_review, "7.5");
    assert_eq!(r.critic_review, "8.0");
    assert_eq!(r.user_review_count, "34");
    assert_eq!(r.critic_review_count, "12");
}

#[test]
fn extract_all_returns_one_record_per_row() {
    let rows = vec![row_with("W1", "A1"), empty_row(), row_with("W2", "A2")];
    let records = extract_all(&rows, "X");
    assert_eq!(records.len(), 3);
    assert_eq!(records[0].writer, "W1");
    assert_eq!(records[1].writer, "N/A");
    assert_eq!(records[1].title, "X");
    assert_eq!(records[2].artist, "A2");
}

#[test]
fn header_row_detection() {
    assert!(is_header_row(&empty_row()));
    assert!(!is_header_row(&row_with("W", "A")));
    let mut nearly = empty_row();
    nearly.artist = Some("A".to_string());
    assert!(!is_header_row(&nearly));
}

#[test]
fn header_exclusion_drops_only_a_leading_header() {
    let with_header = vec![empty_row(), row_with("W1", "A1"), row_with("W2", "A2")];
    let data = strip_leading_header(with_header);
    assert_eq!(data.len(), 2);
    assert_eq!(data[0].writer, Some("W1".to_string()));

    let no_header = vec![row_with("W1", "A1"), row_with("W2", "A2")];
    assert_eq!(strip_leading_header(no_header).len(), 2);

    assert_eq!(strip_leading_header(Vec::new()).len(), 0);
}

#[test]
fn header_exclusion_then_extraction_counts_data_rows() {
    let rows = vec![empty_row(), row_with("W1", "A1"), row_with("W2", "A2")];
    let n_rows = rows.len();
    let records = extract_all(&strip_leading_header(rows), "X");
    assert_eq!(records.len(), n_rows - 1);
}

#[test]
fn five_hundred_rows_aggregate_without_loss() {
    let mut rows = Vec::new();
    for i in 0..500 {
        rows.push(row_with(&format!("writer-{}", i), &format!("artist-{}", i)));
    }
    let records = extract_all(&rows, "Bulk");
    assert_eq!(records.len(), 500);
    let mut pairs: Vec<(String, String)> = records
        .iter()
        .map(|r| (r.writer.clone(), r.artist.clone()))
        .collect();
    pairs.sort();
    pairs.dedup();
    assert_eq!(pairs.len(), 500);
    for i in 0..500 {
        assert!(pairs.contains(&(format!("writer-{}", i), format!("artist-{}", i))));
    }
}

#[test]
fn out_of_order_results_reassemble_into_row_order() {
    let tagged = vec![
        (2usize, row_with("W2", "A2")),
        (0usize, row_with("W0", "A0")),
        (1usize, row_with("W1", "A1")),
    ];
    let rows = assemble_in_order(tagged).unwrap();
    assert_eq!(rows.len(), 3);
    assert_eq!(rows[0].writer, Some("W0".to_string()));
    assert_eq!(rows[1].writer, Some("W1".to_string()));
    assert_eq!(rows[2].writer, Some("W2".to_string()));
}

#[test]
fn duplicate_tag_is_reported_as_lost_update() {
    let tagged = vec![(0usize, row_with("W0", "A0")), (0usize, row_with("W1", "A1"))];
    assert!(assemble_in_order(tagged).is_none());
    let tagged = vec![(5usize, row_with("W0", "A0"))];
    assert!(assemble_in_order(tagged).is_none());
    assert_eq!(assemble_in_order(Vec::new()).unwrap().len(), 0);
}

fn issue_listing_fixture() -> &'static str {
    "<html><body><div class=\"section\"><table>\
     <tr><th>Issue</th><th>Writer</th><th>Artist</th></tr>\
     <tr>\
       <td class=\"issue\"><a>#1</a></td>\
       <td class=\"writer\"><a>Vaughan</a></td>\
       <td class=\"artist\"><a>Staples</a></td>\
       <td class=\"rating\"><div class=\"CriticRatingList\"><div>8.0</div></div></td>\
       <td class=\"rating\"><div class=\"UserRatingList\"><div>7.5</div></div></td>\
       <td class=\"reviews\"><div class=\"CriticReviewNumList\"><a>12</a></div></td>\
       <td class=\"reviews\"><div class=\"UserReviewNumList\"><a>34</a></div></td>\
     </tr>\
     <tr>\
       <td class=\"issue\"><a>#2</a></td>\
       <td class=\"artist\"><a>Staples</a></td>\
       <td class=\"rating\"><div class=\"CriticRatingList\"><div>8.5</div></div></td>\
       <td class=\"rating\"><div class=\"UserRatingList\"><div>7.9</div></div></td>\
       <td class=\"reviews\"><div class=\"CriticReviewNumList\"><a>10</a></div></td>\
       <td class=\"reviews\"><div class=\"UserReviewNumList\"><a>20</a></div></td>\
     </tr>\
     </table></div></body></html>"
}

#[test]
fn pipeline_excludes_header_and_extracts_rows() {
    let sels = Selectors::new().unwrap();
    let records = extract_issues_from_document(issue_listing_fixture(), &sels, "Saga");
    assert_eq!(records.len(), 2);
    assert_eq!(records[0].title, "Saga");
    assert_eq!(records[0].issue_num, "#1");
    assert_eq!(records[0].writer, "Vaughan");
    assert_eq!(records[0].artist, "Staples");
    assert_eq!(records[0].critic_review, "8.0");
    assert_eq!(records[0].user_review, "7.5");
    assert_eq!(records[0].critic_review_count, "12");
    assert_eq!(records[0].user_review_count, "34");
}

#[test]
fn row_without_writer_node_falls_back_only_there() {
    let sels = Selectors::new().unwrap();
    let records = extract_issues_from_document(issue_listing_fixture(), &sels, "Saga");
    assert_eq!(records.len(), 2);
    let second = &records[1];
    assert_eq!(second.writer, "N/A");
    assert_eq!(second.issue_num, "#2");
    assert_eq!(second.artist, "Staples");
    assert_eq!(second.critic_review, "8.5");
    assert_eq!(second.user_review, "7.9");
    assert_eq!(second.critic_review_count, "10");
    assert_eq!(second.user_review_count, "20");
}

#[test]
fn row_fragment_reading_matches_in_place_reading() {
    let sels = Selectors::new().unwrap();
    let fragments = issue_row_fragments(issue_listing_fixture(), &sels);
    assert_eq!(fragments.len(), 3);
    let header = row_fields_from_fragment(&fragments[0], &sels);
    assert!(is_header_row(&header));
    let first = row_fields_from_fragment(&fragments[1], &sels);
    assert_eq!(first.writer, Some("Vaughan".to_string()));
    assert_eq!(first.issue_num, Some("#1".to_string()));
    let second = row_fields_from_fragment(&fragments[2], &sels);
    assert_eq!(second.writer, None);
    assert_eq!(second.artist, Some("Staples".to_string()));
}

#[test]
fn fragment_without_row_offers_nothing() {
    let sels = Selectors::new().unwrap();
    let fields = row_fields_from_fragment("<p>not a row</p>", &sels);
    assert!(is_header_row(&fields));
}
