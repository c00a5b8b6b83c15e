use cyclonedx_bom::external_models::normalized_string::NormalizedString;
use cyclonedx_bom::external_models::uri::Uri;
use cyclonedx_bom::models::advisory::{Advisories, Advisory};
use cyclonedx_bom::validation::{FailureReason, Validate, ValidationContext, ValidationResult};

#[test]
fn advisory_it_should_pass_validation() {
    let validation_result = Advisories(vec![Advisory {
        title: Some(NormalizedString::new("title")),
        url: Uri("https://example.com".to_string()),
    }])
    .validate();

    assert_eq!(validation_result, ValidationResult::Passed);
}

#[test]
fn advisory_it_should_fail_validation() {
    let validation_result = Advisories(vec![Advisory {
        title: Some(NormalizedString("invalid\ttitle".to_string())),
        url: Uri("invalid url".to_string()),
    }])
    .validate();

    assert_eq!(
        validation_result,
        ValidationResult::Failed {
            reasons: vec![
                FailureReason::new(
                    "NormalizedString contains invalid characters \\r \\n \\t or \\r\\n",
                    ValidationContext::new()
                        .with_index(0)
                        .with_struct("Advisory", "title")
                ),
                FailureReason::new(
                    "Uri does not conform to RFC 3986",
                    ValidationContext::new()
                        .with_index(0)
                        .with_struct("Advisory", "url")
                )
            ]
        }
    );
}

#[test]
fn a_new_advisory_has_no_title() {
    let url = Uri::try_from("https://github.com/FasterXML/jackson-databind/issues/1931".to_string())
        .expect("Failed to parse as a URI");
    let advisory = Advisory::new(url.clone());

    assert_eq!(advisory, Advisory { title: None, url });
    assert_eq!(advisory.validate(), ValidationResult::Passed);
}

#[test]
fn an_advisory_without_title_reports_only_its_url() {
    let validation_result = Advisory::new(Uri("invalid url".to_string())).validate();

    assert_eq!(
        validation_result,
        ValidationResult::failure(
            "Uri does not conform to RFC 3986",
            ValidationContext::new().with_struct("Advisory", "url")
        )
    );
}
