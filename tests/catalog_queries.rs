use catalog_auth::catalog::{contains_word, list_filter, wants_series, ListFilter};

#[test]
fn list_filter_by_type_and_genre() {
    assert_eq!(list_filter("type=movie&genre=comedy"), ListFilter::ByTypeAndGenre);
}

#[test]
fn list_filter_by_type() {
    assert_eq!(list_filter("type=series"), ListFilter::ByType);
}

#[test]
fn list_filter_genre_alone_is_ignored() {
    assert_eq!(list_filter("genre=drama"), ListFilter::All);
    assert_eq!(list_filter(""), ListFilter::All);
}

#[test]
fn series_requested() {
    assert!(wants_series("type=series"));
    assert!(wants_series("genre=x&type=series"));
    assert!(!wants_series("type=movie"));
    assert!(!wants_series("type=serie"));
}

#[test]
fn word_search() {
    assert!(contains_word("abc", ""));
    assert!(contains_word("abc", "abc"));
    assert!(contains_word("xxabcxx", "bc"));
    assert!(!contains_word("ab", "abc"));
    assert!(!contains_word("aXbc", "abc"));
}
