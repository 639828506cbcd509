use callisto::http::{body_to_send, method_from_upper, parse_method, HttpMethod, RelayError};

#[test]
fn methods_are_matched_without_case() {
    assert_eq!(parse_method(&"get".to_string()), Ok(HttpMethod::Get));
    assert_eq!(parse_method(&"Post".to_string()), Ok(HttpMethod::Post));
    assert_eq!(parse_method(&"PUT".to_string()), Ok(HttpMethod::Put));
    assert_eq!(parse_method(&"patch".to_string()), Ok(HttpMethod::Patch));
    assert_eq!(parse_method(&"delete".to_string()), Ok(HttpMethod::Delete));
    assert_eq!(parse_method(&"head".to_string()), Ok(HttpMethod::Head));
    assert_eq!(parse_method(&"options".to_string()), Ok(HttpMethod::Options));
}

#[test]
fn unsupported_method_is_reported_as_written() {
    assert_eq!(
        parse_method(&"trace".to_string()),
        Err(RelayError::UnsupportedMethod("trace".to_string()))
    );
}

#[test]
fn upper_case_names_only() {
    assert_eq!(method_from_upper(&"GET".to_string()), Some(HttpMethod::Get));
    assert_eq!(method_from_upper(&"get".to_string()), None);
    assert_eq!(method_from_upper(&"".to_string()), None);
}

#[test]
fn empty_body_is_not_sent() {
    assert_eq!(body_to_send(&None), None);
    assert_eq!(body_to_send(&Some(String::new())), None);
    let b = Some("{}".to_string());
    assert_eq!(body_to_send(&b), Some(&"{}".to_string()));
}

