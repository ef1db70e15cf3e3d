use api_gen::method::HttpMethod;

#[test]
fn method_tokens_are_upper_case() {
    assert_eq!(HttpMethod::Get.to_string(), "GET");
    assert_eq!(HttpMethod::Post.to_string(), "POST");
    assert_eq!(HttpMethod::Put.to_string(), "PUT");
    assert_eq!(HttpMethod::Patch.to_string(), "PATCH");
    assert_eq!(HttpMethod::Delete.to_string(), "DELETE");
}

#[test]
fn method_tokens_parse_in_any_case() {
    assert_eq!(HttpMethod::from_token("PosT"), Some(HttpMethod::Post));
    assert_eq!(HttpMethod::from_token("get"), Some(HttpMethod::Get));
    assert_eq!(HttpMethod::from_token("Put"), Some(HttpMethod::Put));
    assert_eq!(HttpMethod::from_token("patch"), Some(HttpMethod::Patch));
    assert_eq!(HttpMethod::from_token("DELETE"), Some(HttpMethod::Delete));
}

#[test]
fn should_fail_for_invalid_method() {
    assert_eq!(HttpMethod::from_token("INVALID_METHOD"), None);
    assert_eq!(HttpMethod::from_token(""), None);
}

#[test]
fn upper_token_must_match_exactly() {
    assert_eq!(HttpMethod::from_upper(&"GET".to_string()), Some(HttpMethod::Get));
    assert_eq!(HttpMethod::from_upper(&"get".to_string()), None);
    assert_eq!(HttpMethod::from_upper(&"GETS".to_string()), None);
}
