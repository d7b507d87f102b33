use gax::paginator::{drain_pages, Page, Paginator};

#[test]
fn three_pages_then_empty_token_stops_after_three_calls() {
    let pages = vec![
        Page { items: vec![1u64, 2], next_token: Some("a".to_string()) },
        Page { items: vec![3], next_token: Some("b".to_string()) },
        Page { items: vec![4, 5], next_token: Some("".to_string()) },
        Page { items: vec![99], next_token: Some("never".to_string()) },
    ];
    let (items, calls) = drain_pages(pages);
    assert_eq!(calls, 3);
    assert_eq!(items, vec![1, 2, 3, 4, 5]);
}

#[test]
fn absent_token_stops_iteration() {
    let pages = vec![
        Page { items: vec!["x".to_string()], next_token: None },
        Page { items: vec!["y".to_string()], next_token: None },
    ];
    let (items, calls) = drain_pages(pages);
    assert_eq!(calls, 1);
    assert_eq!(items, vec!["x".to_string()]);
}

#[test]
fn all_pages_consumed_when_no_token_is_exhausted() {
    let pages = vec![
        Page { items: vec![1u8], next_token: Some("a".to_string()) },
        Page { items: vec![2], next_token: Some("b".to_string()) },
    ];
    let (items, calls) = drain_pages(pages);
    assert_eq!(calls, 2);
    assert_eq!(items, vec![1, 2]);
}

#[test]
fn paginator_threads_tokens_and_finishes_on_empty() {
    let mut p = Paginator::new();
    assert!(!p.is_finished());
    assert_eq!(p.page_token(), &None);
    p.record_page(Some("a".to_string()));
    assert!(!p.is_finished());
    assert_eq!(p.page_token(), &Some("a".to_string()));
    p.record_page(Some("b".to_string()));
    assert!(!p.is_finished());
    p.record_page(Some("".to_string()));
    assert!(p.is_finished());
    assert_eq!(p.calls, 3);
}

use gax::json::Json;

#[test]
fn page_names_reads_items_and_token() {
    let resp = Json::Obj(vec![
        (
            "secrets".to_string(),
            Json::Arr(vec![
                Json::Obj(vec![("name".to_string(), Json::Str("s/a".to_string()))]),
                Json::Obj(vec![("labels".to_string(), Json::Obj(vec![]))]),
                Json::Obj(vec![("name".to_string(), Json::Str("s/b".to_string()))]),
            ]),
        ),
        ("nextPageToken".to_string(), Json::Str("t1".to_string())),
    ]);
    let (names, token) = gax::paginator::page_names(&resp, "secrets");
    assert_eq!(names, vec!["s/a".to_string(), "s/b".to_string()]);
    assert_eq!(token, Some("t1".to_string()));
}

#[test]
fn page_names_of_plain_response_is_empty() {
    let resp = Json::Obj(vec![("other".to_string(), Json::Num("1".to_string()))]);
    let (names, token) = gax::paginator::page_names(&resp, "secrets");
    assert_eq!(names, Vec::<String>::new());
    assert_eq!(token, None);
}
