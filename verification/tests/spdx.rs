use cyclonedx_bom::external_models::spdx::{
    SpdxExpression, SpdxExpressionError, SpdxIdentifier, SpdxIdentifierError,
};
use cyclonedx_bom::validation::{Validate, ValidationContext, ValidationResult};

#[test]
fn it_should_succeed_in_converting_an_spdx_identifier() {
    let actual =
        SpdxIdentifier::try_from("MIT".to_string()).expect("Failed to parse as an identifier");

    assert_eq!(actual, SpdxIdentifier("MIT".to_string()));
}

#[test]
fn it_should_fail_to_convert_an_invalid_spdx_identifier() {
    let actual = SpdxIdentifier::try_from("MIT OR Apache-2.0".to_string())
        .expect_err("Should have failed to parse as an identifier");

    assert_eq!(
        actual,
        SpdxIdentifierError::InvalidSpdxIdentifier(
            "Not a valid identifier: MIT OR Apache-2.0".to_string()
        )
    );
}

#[test]
fn it_should_succeed_in_converting_an_imprecise_spdx_identifier() {
    let actual =
        SpdxIdentifier::imprecise("mit".to_string()).expect("Failed to parse as an identifier");

    assert_eq!(actual, SpdxIdentifier("MIT".to_string()));
}

#[test]
fn it_should_fail_to_convert_an_invalid_imprecise_spdx_identifier() {
    let actual = SpdxIdentifier::imprecise("GNU General Public License v3".to_string())
        .expect_err("Should have failed to parse as an identifier");

    assert_eq!(
        actual,
        SpdxIdentifierError::InvalidImpreciseSpdxIdentifier(
            "Not a valid identifier: GNU General Public License v3".to_string()
        )
    );
}

#[test]
fn valid_spdx_identifiers_should_pass_validation() {
    let validation_result = SpdxIdentifier("MIT".to_string()).validate();

    assert_eq!(validation_result, ValidationResult::Passed);
}

#[test]
fn invalid_spdx_identifiers_should_fail_validation() {
    let validation_result = SpdxIdentifier("MIT OR Apache-2.0".to_string()).validate();

    assert_eq!(
        validation_result,
        ValidationResult::failure("SPDX identifier is not valid", ValidationContext::default()),
    );
}

#[test]
fn it_should_succeed_in_converting_an_spdx_expression() {
    let actual = SpdxExpression::try_from("MIT OR Apache-2.0".to_string())
        .expect("Failed to parse as a license");
    assert_eq!(actual, SpdxExpression("MIT OR Apache-2.0".to_string()));
}

#[test]
fn it_should_succeed_in_converting_a_partially_valid_spdx_expression() {
    let actual = SpdxExpression::parse_lax("MIT/Apache-2.0".to_string())
        .expect("Failed to parse as a license");
    assert_eq!(actual, SpdxExpression("MIT OR Apache-2.0".to_string()));
}

#[test]
fn it_should_fail_to_convert_an_invalid_spdx_expression() {
    let actual = SpdxExpression::try_from("not a real license".to_string())
        .expect_err("Should have failed to parse as a license");
    assert_eq!(
        actual,
        SpdxExpressionError::InvalidSpdxExpression("unknown term".to_string())
    );
}

#[test]
fn valid_spdx_expressions_should_pass_validation() {
    let validation_result = SpdxExpression("MIT OR Apache-2.0".to_string()).validate();

    assert_eq!(validation_result, ValidationResult::Passed);
}

#[test]
fn invalid_spdx_expressions_should_fail_validation() {
    let validation_result = SpdxExpression("not a real license".to_string()).validate();

    assert_eq!(
        validation_result,
        ValidationResult::failure("SPDX expression is not valid", ValidationContext::default())
    );
}

#[test]
fn an_imprecise_identifier_gives_the_spelling_of_the_list() {
    let identifier =
        SpdxIdentifier::imprecise("Apache 2.0".to_string()).expect("Failed to match a license");

    assert_eq!(identifier.to_string(), "Apache-2.0".to_string());
    assert_eq!(identifier.validate(), ValidationResult::Passed);
}

#[test]
fn an_identifier_is_matched_letter_for_letter() {
    assert!(SpdxIdentifier::try_from("mit".to_string()).is_err());
    assert!(SpdxIdentifier::try_from("Apache 2.0".to_string()).is_err());
    let identifier = SpdxIdentifier::try_from("LGPL-3.0-or-later".to_string())
        .expect("Failed to parse as an identifier");
    assert_eq!(identifier.to_string(), "LGPL-3.0-or-later".to_string());
    assert_eq!(identifier.validate(), ValidationResult::Passed);
}

#[test]
fn the_lookup_decides_what_from_lookup_gives() {
    assert_eq!(
        SpdxIdentifier::from_lookup("anything".to_string(), true),
        Ok(SpdxIdentifier("anything".to_string()))
    );
    assert_eq!(
        SpdxIdentifier::from_lookup("anything".to_string(), false),
        Err(SpdxIdentifierError::InvalidSpdxIdentifier(
            "Not a valid identifier: anything".to_string()
        ))
    );
}

#[test]
fn the_match_decides_what_from_imprecise_match_gives() {
    assert_eq!(
        SpdxIdentifier::from_imprecise_match("bsd".to_string(), Some("BSD-2-Clause".to_string())),
        Ok(SpdxIdentifier("BSD-2-Clause".to_string()))
    );
    assert_eq!(
        SpdxIdentifier::from_imprecise_match("nothing".to_string(), None),
        Err(SpdxIdentifierError::InvalidImpreciseSpdxIdentifier(
            "Not a valid identifier: nothing".to_string()
        ))
    );
}

#[test]
fn identifier_errors_in_words() {
    assert_eq!(
        SpdxIdentifierError::InvalidSpdxIdentifier("x".to_string()).to_string(),
        "Invalid SPDX identifier: x"
    );
    assert_eq!(
        SpdxIdentifierError::InvalidImpreciseSpdxIdentifier("x".to_string()).to_string(),
        "Invalid Imprecise SPDX identifier: x"
    );
}

#[test]
fn expression_errors_in_words() {
    assert_eq!(
        SpdxExpressionError::InvalidSpdxExpression("x".to_string()).to_string(),
        "Invalid SPDX expression: x"
    );
    assert_eq!(
        SpdxExpressionError::InvalidLaxSpdxExpression("x".to_string()).to_string(),
        "Invalid Lax SPDX expression: x"
    );
}

#[test]
fn a_lenient_expression_equals_the_strict_one_after_replacing() {
    let lenient = SpdxExpression::parse_lax("MIT/Apache-2.0".to_string());
    let strict = SpdxExpression::try_from("MIT OR Apache-2.0".to_string());

    assert_eq!(lenient, strict);
    assert_eq!(lenient.expect("no expression").validate(), ValidationResult::Passed);
    assert_eq!(strict.expect("no expression").validate(), ValidationResult::Passed);
}

#[test]
fn a_lenient_expression_without_slashes_stays_as_it_is() {
    let actual = SpdxExpression::parse_lax("MIT OR Apache-2.0".to_string())
        .expect("Failed to parse as a license");
    assert_eq!(actual, SpdxExpression("MIT OR Apache-2.0".to_string()));
}

#[test]
fn every_slash_is_replaced() {
    let actual = SpdxExpression::parse_lax("MIT/Apache-2.0/ISC".to_string())
        .expect("Failed to parse as a license");
    assert_eq!(actual, SpdxExpression("MIT OR Apache-2.0 OR ISC".to_string()));
}

#[test]
fn a_text_that_does_not_parse_leniently_is_refused() {
    let actual = SpdxExpression::parse_lax("not a real license".to_string())
        .expect_err("Should have failed to parse as a license");
    assert_eq!(
        actual,
        SpdxExpressionError::InvalidLaxSpdxExpression("unknown term".to_string())
    );
}

#[test]
fn a_text_that_parses_only_leniently_is_refused_after_replacing() {
    let actual = SpdxExpression::parse_lax("mit/Apache-2.0".to_string())
        .expect_err("Should have failed to parse as a license");
    assert_eq!(
        actual,
        SpdxExpressionError::InvalidLaxSpdxExpression(
            "Invalid SPDX expression: unknown term".to_string()
        )
    );
}

#[test]
fn converting_replaces_slashes_and_parses_strictly() {
    assert_eq!(
        SpdxExpression("MIT/Apache-2.0".to_string()).convert_lax(),
        Ok(SpdxExpression("MIT OR Apache-2.0".to_string()))
    );
    assert_eq!(
        SpdxExpression("MIT/not-a-license".to_string()).convert_lax(),
        Err(SpdxExpressionError::InvalidLaxSpdxExpression(
            "Invalid SPDX expression: unknown term".to_string()
        ))
    );
}

#[test]
fn the_parse_outcomes_decide_what_the_constructors_give() {
    assert_eq!(
        SpdxExpression::from_parse("anything".to_string(), None),
        Ok(SpdxExpression("anything".to_string()))
    );
    assert_eq!(
        SpdxExpression::from_parse("anything".to_string(), Some("a reason".to_string())),
        Err(SpdxExpressionError::InvalidSpdxExpression("a reason".to_string()))
    );
    assert_eq!(
        SpdxExpression::from_lax_parse("anything".to_string(), Some("a reason".to_string())),
        Err(SpdxExpressionError::InvalidLaxSpdxExpression("a reason".to_string()))
    );
    assert_eq!(
        SpdxExpression::from_lax_parse("MIT/ISC".to_string(), None),
        Ok(SpdxExpression("MIT OR ISC".to_string()))
    );
    assert_eq!(
        SpdxExpression::from_strict_result(Ok(SpdxExpression("MIT".to_string()))),
        Ok(SpdxExpression("MIT".to_string()))
    );
    assert_eq!(
        SpdxExpression::from_strict_result(Err(SpdxExpressionError::InvalidSpdxExpression(
            "a reason".to_string()
        ))),
        Err(SpdxExpressionError::InvalidLaxSpdxExpression(
            "Invalid SPDX expression: a reason".to_string()
        ))
    );
}

#[test]
fn validation_of_a_lenient_text_stays_strict() {
    let validation_result = SpdxExpression("MIT/Apache-2.0".to_string()).validate();

    assert_eq!(
        validation_result,
        ValidationResult::failure("SPDX expression is not valid", ValidationContext::default())
    );
}
