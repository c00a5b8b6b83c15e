use cyclonedx_bom::external_models::normalized_string::NormalizedString;
use cyclonedx_bom::external_models::spdx::{SpdxExpression, SpdxIdentifier, SpdxIdentifierError};
use cyclonedx_bom::external_models::uri::Uri;
use cyclonedx_bom::models::attached_text::AttachedText;
use cyclonedx_bom::models::license::{License, LicenseChoice, LicenseIdentifier, Licenses};
use cyclonedx_bom::validation::{
    FailureReason, Validate, ValidationContext, ValidationPathComponent, ValidationResult,
};

#[test]
fn license_it_should_pass_validation() {
    let validation_result = Licenses(vec![LicenseChoice::Expression(SpdxExpression(
        "MIT OR Apache-2.0".to_string(),
    ))])
    .validate();

    assert_eq!(validation_result, ValidationResult::Passed);
}

#[test]
fn it_should_fail_validation_for_license_name() {
    let validation_result = Licenses(vec![LicenseChoice::License(License {
        license_identifier: LicenseIdentifier::Name(NormalizedString(
            "spaces and \ttabs".to_string(),
        )),
        text: None,
        url: None,
    })])
    .validate();

    assert_eq!(
        validation_result,
        ValidationResult::Failed {
            reasons: vec![FailureReason {
                message: "NormalizedString contains invalid characters \\r \\n \\t or \\r\\n"
                    .to_string(),
                context: ValidationContext(vec![
                    ValidationPathComponent::Array { index: 0 },
                    ValidationPathComponent::EnumVariant {
                        variant_name: "License".to_string()
                    },
                    ValidationPathComponent::Struct {
                        struct_name: "License".to_string(),
                        field_name: "license_identifier".to_string(),
                    },
                    ValidationPathComponent::EnumVariant {
                        variant_name: "Name".to_string()
                    },
                ])
            }]
        }
    );
}

#[test]
fn it_should_fail_validation_for_license_id() {
    let validation_result = Licenses(vec![LicenseChoice::License(License {
        license_identifier: LicenseIdentifier::SpdxId(SpdxIdentifier("Apache=2.0".to_string())),
        text: None,
        url: None,
    })])
    .validate();

    assert_eq!(
        validation_result,
        ValidationResult::Failed {
            reasons: vec![FailureReason {
                message: "SPDX identifier is not valid".to_string(),
                context: ValidationContext(vec![
                    ValidationPathComponent::Array { index: 0 },
                    ValidationPathComponent::EnumVariant {
                        variant_name: "License".to_string()
                    },
                    ValidationPathComponent::Struct {
                        struct_name: "License".to_string(),
                        field_name: "license_identifier".to_string(),
                    },
                    ValidationPathComponent::EnumVariant {
                        variant_name: "SpdxId".to_string()
                    },
                ])
            }]
        }
    );
}

#[test]
fn it_should_fail_validation_for_license_expression() {
    let validation_result = Licenses(vec![LicenseChoice::Expression(SpdxExpression(
        "MIT OR".to_string(),
    ))])
    .validate();

    assert_eq!(
        validation_result,
        ValidationResult::Failed {
            reasons: vec![FailureReason {
                message: "SPDX expression is not valid".to_string(),
                context: ValidationContext(vec![
                    ValidationPathComponent::Array { index: 0 },
                    ValidationPathComponent::EnumVariant {
                        variant_name: "Expression".to_string()
                    }
                ])
            }]
        }
    );
}

#[test]
fn it_should_merge_validations_correctly_license_choice_licenses() {
    let validation_result = Licenses(vec![
        LicenseChoice::License(License {
            license_identifier: LicenseIdentifier::Name(NormalizedString("MIT".to_string())),
            text: None,
            url: None,
        }),
        LicenseChoice::License(License {
            license_identifier: LicenseIdentifier::Name(NormalizedString(
                "spaces and \ttabs".to_string(),
            )),
            text: None,
            url: None,
        }),
        LicenseChoice::License(License {
            license_identifier: LicenseIdentifier::SpdxId(SpdxIdentifier(
                "Apache=2.0".to_string(),
            )),
            text: None,
            url: None,
        }),
    ])
    .validate();

    assert_eq!(
        validation_result,
        ValidationResult::Failed {
            reasons: vec![
                FailureReason {
                    message: "NormalizedString contains invalid characters \\r \\n \\t or \\r\\n"
                        .to_string(),
                    context: ValidationContext(vec![
                        ValidationPathComponent::Array { index: 1 },
                        ValidationPathComponent::EnumVariant {
                            variant_name: "License".to_string()
                        },
                        ValidationPathComponent::Struct {
                            struct_name: "License".to_string(),
                            field_name: "license_identifier".to_string(),
                        },
                        ValidationPathComponent::EnumVariant {
                            variant_name: "Name".to_string()
                        },
                    ])
                },
                FailureReason {
                    message: "SPDX identifier is not valid".to_string(),
                    context: ValidationContext(vec![
                        ValidationPathComponent::Array { index: 2 },
                        ValidationPathComponent::EnumVariant {
                            variant_name: "License".to_string()
                        },
                        ValidationPathComponent::Struct {
                            struct_name: "License".to_string(),
                            field_name: "license_identifier".to_string(),
                        },
                        ValidationPathComponent::EnumVariant {
                            variant_name: "SpdxId".to_string()
                        },
                    ])
                }
            ]
        }
    );
}

#[test]
fn it_should_merge_validations_correctly_license_choice_expressions() {
    let validation_result = Licenses(vec![
        LicenseChoice::Expression(SpdxExpression("MIT OR Apache-2.0".to_string())),
        LicenseChoice::Expression(SpdxExpression("MIT OR".to_string())),
        LicenseChoice::Expression(SpdxExpression("MIT OR".to_string())),
    ])
    .validate();

    assert_eq!(
        validation_result,
        ValidationResult::Failed {
            reasons: vec![
                FailureReason {
                    message: "SPDX expression is not valid".to_string(),
                    context: ValidationContext(vec![
                        ValidationPathComponent::Array { index: 1 },
                        ValidationPathComponent::EnumVariant {
                            variant_name: "Expression".to_string()
                        }
                    ])
                },
                FailureReason {
                    message: "SPDX expression is not valid".to_string(),
                    context: ValidationContext(vec![
                        ValidationPathComponent::Array { index: 2 },
                        ValidationPathComponent::EnumVariant {
                            variant_name: "Expression".to_string()
                        }
                    ])
                }
            ]
        }
    );
}

#[test]
fn a_named_license_holds_a_normalized_name() {
    let license = License::named_license("Example\tLicense 1.0");

    assert_eq!(
        license,
        License {
            license_identifier: LicenseIdentifier::Name(NormalizedString(
                "Example License 1.0".to_string()
            )),
            text: None,
            url: None,
        }
    );
    assert_eq!(license.validate(), ValidationResult::Passed);
}

#[test]
fn a_license_by_identifier_is_in_the_list() {
    let license = License::license_id("LGPL-3.0-or-later").expect("Failed to find the license");

    assert_eq!(
        license,
        License {
            license_identifier: LicenseIdentifier::SpdxId(SpdxIdentifier(
                "LGPL-3.0-or-later".to_string()
            )),
            text: None,
            url: None,
        }
    );
    assert_eq!(license.validate(), ValidationResult::Passed);
    assert_eq!(
        Licenses(vec![LicenseChoice::License(license)]).validate(),
        ValidationResult::Passed
    );
}

#[test]
fn a_license_by_an_unknown_identifier_is_refused() {
    assert_eq!(
        License::license_id("MIT OR Apache-2.0"),
        Err(SpdxIdentifierError::InvalidSpdxIdentifier(
            "Not a valid identifier: MIT OR Apache-2.0".to_string()
        ))
    );
}

#[test]
fn a_choice_knows_whether_it_is_a_license() {
    assert!(LicenseChoice::License(License::named_license("Example")).is_license());
    assert!(!LicenseChoice::Expression(SpdxExpression("MIT".to_string())).is_license());
}

#[test]
fn every_field_of_a_license_is_validated_in_order() {
    let validation_result = License {
        license_identifier: LicenseIdentifier::Name(NormalizedString("bad\nname".to_string())),
        text: Some(AttachedText {
            content_type: Some(NormalizedString("text/plain\r".to_string())),
            content: "wording".to_string(),
        }),
        url: Some(Uri("invalid url".to_string())),
    }
    .validate();

    assert_eq!(
        validation_result,
        ValidationResult::Failed {
            reasons: vec![
                FailureReason::new(
                    "NormalizedString contains invalid characters \\r \\n \\t or \\r\\n",
                    ValidationContext::new()
                        .with_struct("License", "license_identifier")
                        .with_enum_variant("Name")
                ),
                FailureReason::new(
                    "NormalizedString contains invalid characters \\r \\n \\t or \\r\\n",
                    ValidationContext::new()
                        .with_struct("License", "text")
                        .with_struct("AttachedText", "content_type")
                ),
                FailureReason::new(
                    "Uri does not conform to RFC 3986",
                    ValidationContext::new().with_struct("License", "url")
                ),
            ]
        }
    );
}

#[test]
fn absent_fields_of_a_license_give_nothing() {
    let validation_result = License {
        license_identifier: LicenseIdentifier::SpdxId(SpdxIdentifier("MIT".to_string())),
        text: Some(AttachedText::new(None, "wording")),
        url: Some(Uri("https://example.com/license".to_string())),
    }
    .validate();

    assert_eq!(validation_result, ValidationResult::Passed);
}
