use cyclonedx_bom::external_models::normalized_string::NormalizedString;
use cyclonedx_bom::models::property::{Properties, Property};
use cyclonedx_bom::validation::{
    FailureReason, Validate, ValidationContext, ValidationPathComponent, ValidationResult,
};

#[test]
fn property_it_should_pass_validation() {
    let validation_result = Properties(vec![Property {
        name: "property name".to_string(),
        value: NormalizedString("property value".to_string()),
    }])
    .validate();

    assert_eq!(validation_result, ValidationResult::Passed);
}

#[test]
fn property_it_should_fail_validation() {
    let validation_result = Properties(vec![Property {
        name: "property name".to_string(),
        value: NormalizedString("spaces and \ttabs".to_string()),
    }])
    .validate();

    assert_eq!(
        validation_result,
        ValidationResult::Failed {
            reasons: vec![FailureReason {
                message: "NormalizedString contains invalid characters \\r \\n \\t or \\r\\n"
                    .to_string(),
                context: ValidationContext(vec![
                    ValidationPathComponent::Array { index: 0 },
                    ValidationPathComponent::Struct {
                        struct_name: "Property".to_string(),
                        field_name: "value".to_string(),
                    },
                ]),
            }],
        }
    );
}

#[test]
fn a_new_property_holds_a_normalized_value() {
    let property = Property::new("Foo", "Bar\r\nBaz\tQux");

    assert_eq!(
        property,
        Property {
            name: "Foo".to_string(),
            value: NormalizedString("Bar Baz Qux".to_string()),
        }
    );
    assert_eq!(property.validate(), ValidationResult::Passed);
    assert_eq!(Properties(vec![property]).validate(), ValidationResult::Passed);
}

#[test]
fn only_the_failing_property_is_reported_at_its_position() {
    for failing in 0..4usize {
        let mut properties = Vec::new();
        for position in 0..4usize {
            let value = if position == failing { "bad\rvalue" } else { "good value" };
            properties.push(Property {
                name: "name".to_string(),
                value: NormalizedString(value.to_string()),
            });
        }

        assert_eq!(
            Properties(properties).validate(),
            ValidationResult::failure(
                "NormalizedString contains invalid characters \\r \\n \\t or \\r\\n",
                ValidationContext::new()
                    .with_index(failing)
                    .with_struct("Property", "value")
            )
        );
    }
}

#[test]
fn no_properties_pass_validation() {
    assert_eq!(Properties(Vec::new()).validate(), ValidationResult::Passed);
}
