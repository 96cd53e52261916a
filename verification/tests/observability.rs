use semantic_explorer_api::observability::cache_type_from_key;

#[test]
fn cache_type_is_prefix_before_first_colon() {
    assert_eq!(cache_type_from_key("bearer:abc"), "bearer");
    assert_eq!(cache_type_from_key("rate:limit:user"), "rate");
    assert_eq!(cache_type_from_key("plain"), "plain");
    assert_eq!(cache_type_from_key(":x"), "");
    assert_eq!(cache_type_from_key(""), "");
    assert_eq!(cache_type_from_key("ünï:x"), "ünï");
}
