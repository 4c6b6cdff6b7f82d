use rurl_shortener::suggestion::extract_suggested_key;

#[test]
fn test_extracts_suggested_key() {
    let payload = "{\"short_link\": \"my_key\"}";
    assert_eq!(extract_suggested_key(payload), Some("my_key".to_string()));
}

#[test]
fn test_extra_fields_are_ignored() {
    let payload = "{\"short_link\": \"my_key\", \"confidence\": 3}";
    assert_eq!(extract_suggested_key(payload), Some("my_key".to_string()));
}

#[test]
fn test_missing_field_is_a_parse_failure() {
    assert_eq!(extract_suggested_key("{\"other\": \"my_key\"}"), None);
    assert_eq!(extract_suggested_key("{}"), None);
}

#[test]
fn test_non_string_field_is_a_parse_failure() {
    assert_eq!(extract_suggested_key("{\"short_link\": 17}"), None);
    assert_eq!(extract_suggested_key("{\"short_link\": [\"my_key\"]}"), None);
}

#[test]
fn test_non_json_body_is_a_parse_failure() {
    assert_eq!(extract_suggested_key("my_key"), None);
    assert_eq!(extract_suggested_key(""), None);
}
