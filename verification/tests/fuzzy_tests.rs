use comic_catalog::catalog::Title;
use comic_catalog::fuzzy::{find_titles, resolve, DEFAULT_THRESHOLD};

fn candidates(names: &[&str]) -> Vec<String> {
    names.iter().map(|n| n.to_string()).collect()
}

#[test]
fn exact_match_is_always_included() {
    let cands = candidates(&["new york mets", "chicago cubs"]);
    let picked = resolve("new york mets", &cands, DEFAULT_THRESHOLD);
    assert!(picked.contains(&0));
    let picked = resolve("new york mets", &cands, 0);
    assert!(picked.contains(&0));
    let picked = resolve("new york mets", &cands, 99);
    assert_eq!(picked, vec![0]);
}

#[test]
fn threshold_at_maximum_yields_empty() {
    let cands = candidates(&["new york mets", "chicago cubs"]);
    let picked = resolve("new york jets", &cands, 100);
    assert_eq!(picked, Vec::<usize>::new());
}

#[test]
fn empty_candidate_list_yields_empty() {
    let cands: Vec<String> = Vec::new();
    let picked = resolve("anything", &cands, DEFAULT_THRESHOLD);
    assert_eq!(picked, Vec::<usize>::new());
}

#[test]
fn score_is_computed_from_both_strings() {
    // fuzz::ratio("hello test", "hello world") is 57: kept under a lower
    // threshold, dropped once the threshold reaches the score.
    let cands = candidates(&["hello world"]);
    assert_eq!(resolve("hello test", &cands, 50), vec![0]);
    assert_eq!(resolve("hello test", &cands, 56), vec![0]);
    assert_eq!(resolve("hello test", &cands, 57), Vec::<usize>::new());
}

#[test]
fn resolve_keeps_input_order() {
    let cands = candidates(&["alpha one", "beta", "alpha two", "alpha"]);
    let picked = resolve("alpha", &cands, 50);
    for w in picked.windows(2) {
        assert!(w[0] < w[1]);
    }
    assert!(picked.contains(&3));
}

#[test]
fn find_titles_filters_and_keeps_order() {
    let cands = vec![
        Title::new("Amazing Spider-Man".to_string(), "/series/asm".to_string()),
        Title::new("Fantastic Four".to_string(), "/series/ff".to_string()),
        Title::new("Spider-Man 2099".to_string(), "/series/sm2099".to_string()),
    ];
    let found = find_titles("Spider-Man", &cands, DEFAULT_THRESHOLD);
    assert!(found.len() >= 1);
    for t in &found {
        assert!(t.name.contains("Spider-Man"));
    }
    let exact = find_titles("Fantastic Four", &cands, 99);
    assert_eq!(exact.len(), 1);
    assert_eq!(exact[0].name, "Fantastic Four");
    assert_eq!(exact[0].url, "/series/ff");
}

#[test]
fn find_titles_empty_candidates() {
    let found = find_titles("anything", &Vec::new(), DEFAULT_THRESHOLD);
    assert_eq!(found.len(), 0);
}
