use cyclonedx_bom::external_models::uri::{Uri, UriError};
use cyclonedx_bom::validation::{Validate, ValidationContext, ValidationResult};

#[test]
fn valid_uris_should_pass_validation() {
    let validation_result = Uri("https://example.com".to_string()).validate();

    assert_eq!(validation_result, ValidationResult::Passed);
}

#[test]
fn invalid_uris_should_fail_validation() {
    let validation_result = Uri("invalid url".to_string()).validate();

    assert_eq!(
        validation_result,
        ValidationResult::failure("Uri does not conform to RFC 3986", ValidationContext::default())
    );
}

#[test]
fn a_valid_uri_is_kept_letter_for_letter() {
    let text = "https://github.com/FasterXML/jackson-databind/issues/1931".to_string();
    let uri = Uri::try_from(text.clone()).expect("Failed to parse as a URI");

    assert_eq!(uri.to_string(), text);
    assert_eq!(uri.validate(), ValidationResult::Passed);
}

#[test]
fn an_invalid_uri_is_refused() {
    let error = Uri::try_from("invalid url".to_string()).expect_err("Should have failed");

    assert_eq!(
        error,
        UriError::InvalidUri("Uri does not conform to RFC 3986".to_string())
    );
    assert_eq!(
        error.to_string(),
        "Invalid URI: Uri does not conform to RFC 3986"
    );
}

#[test]
fn the_check_decides_what_from_check_gives() {
    assert!(Uri::check("/path/to/file"));
    assert!(!Uri::check("a b"));
    assert_eq!(
        Uri::from_check("anything".to_string(), true),
        Ok(Uri("anything".to_string()))
    );
    assert_eq!(
        Uri::from_check("anything".to_string(), false),
        Err(UriError::InvalidUri("Uri does not conform to RFC 3986".to_string()))
    );
}
