use songstore::environment::{get_environment, Environment};
use songstore::extract_bearer_token;
use songstore::ident::is_uuid_str;

#[test]
fn valid_canonical_uuid_is_accepted() {
    assert!(is_uuid_str("123e4567-e89b-12d3-a456-426614174000"));
}

#[test]
fn uppercase_hex_is_accepted() {
    assert!(is_uuid_str("123E4567-E89B-12D3-A456-426614174000"));
}

#[test]
fn simple_form_is_accepted() {
    assert!(is_uuid_str("67e5504410b1426f9247bb680e5fe0c8"));
    assert!(is_uuid_str("67E5504410B1426F9247BB680E5FE0C8"));
}

#[test]
fn braced_form_is_accepted() {
    assert!(is_uuid_str("{123e4567-e89b-12d3-a456-426614174000}"));
    // A braced body must itself be hyphenated.
    assert!(!is_uuid_str("{67e5504410b1426f9247bb680e5fe0c8}"));
}

#[test]
fn urn_form_is_accepted() {
    assert!(is_uuid_str("urn:uuid:123e4567-e89b-12d3-a456-426614174000"));
    assert!(is_uuid_str("URN:UUID:123e4567-e89b-12d3-a456-426614174000"));
    assert!(!is_uuid_str("urn:uuld:123e4567-e89b-12d3-a456-426614174000"));
}

#[test]
fn wrong_length_is_rejected() {
    assert!(!is_uuid_str(""));
    assert!(!is_uuid_str("123e4567-e89b-12d3-a456-42661417400"));
    assert!(!is_uuid_str("123e4567-e89b-12d3-a456-4266141740000"));
}

#[test]
fn misplaced_hyphens_are_rejected() {
    assert!(!is_uuid_str("123e45678e89b-12d3-a456-426614174000"));
    assert!(!is_uuid_str("123e4567-e89b12d3-a456-4266141740-00"));
}

#[test]
fn non_hex_characters_are_rejected() {
    assert!(!is_uuid_str("123g4567-e89b-12d3-a456-426614174000"));
    assert!(!is_uuid_str("123e4567-e89b-12d3-a456-42661417400 "));
}

#[test]
fn bearer_token_is_extracted() {
    assert_eq!(extract_bearer_token("Bearer abc.def"), Some("abc.def".to_string()));
    assert_eq!(extract_bearer_token("Bearer "), Some("".to_string()));
}

#[test]
fn missing_bearer_prefix_is_rejected() {
    assert_eq!(extract_bearer_token("bearer abc"), None);
    assert_eq!(extract_bearer_token("abc"), None);
    assert_eq!(extract_bearer_token(""), None);
}

#[test]
fn environment_names_parse_exactly() {
    assert_eq!(get_environment("development"), Some(Environment::Development));
    assert_eq!(get_environment("production"), Some(Environment::Production));
    assert_eq!(get_environment("staging"), None);
    assert_eq!(get_environment(""), None);
}

#[test]
fn environment_ports() {
    assert_eq!(Environment::Development.port(), 5001);
    assert_eq!(Environment::Production.port(), 5000);
}
