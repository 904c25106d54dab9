use provider_bot::extract_ids;
use provider_bot::FetchedItem;

#[test]
fn extract_ids_keeps_every_identifier_in_order() {
    let page = vec![
        FetchedItem { name: "t3_a1".to_string() },
        FetchedItem { name: "t3_a2".to_string() },
        FetchedItem { name: "t3_a3".to_string() },
    ];
    let ids = extract_ids(&page);
    assert_eq!(ids, vec!["t3_a1".to_string(), "t3_a2".to_string(), "t3_a3".to_string()]);
}

#[test]
fn extract_ids_of_an_empty_page_is_empty() {
    let page: Vec<FetchedItem> = Vec::new();
    assert_eq!(extract_ids(&page), Vec::<String>::new());
}
