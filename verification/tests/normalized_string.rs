use cyclonedx_bom::external_models::normalized_string::NormalizedString;
use cyclonedx_bom::validation::{Validate, ValidationContext, ValidationResult};

#[test]
fn it_should_normalize_strings() {
    assert_eq!(
        NormalizedString("no_whitespace".to_string()),
        NormalizedString::new("no_whitespace")
    );
    assert_eq!(
        NormalizedString("spaces and tabs".to_string()),
        NormalizedString::new("spaces and\ttabs")
    );
    assert_eq!(
        NormalizedString("carriage returns and linefeeds".to_string()),
        NormalizedString::new("carriage\r\nreturns\rand\nlinefeeds")
    );
}

#[test]
fn normalized_string_it_should_pass_validation() {
    let validation_result = NormalizedString("no_whitespace".to_string()).validate();

    assert_eq!(validation_result, ValidationResult::Passed);
}

#[test]
fn normalized_string_it_should_fail_validation() {
    let validation_result = NormalizedString("spaces and\ttabs".to_string()).validate();

    assert_eq!(
        validation_result,
        ValidationResult::failure(
            "NormalizedString contains invalid characters \\r \\n \\t or \\r\\n",
            ValidationContext::default()
        )
    );
}

#[test]
fn a_carriage_return_with_its_line_feed_gives_one_space() {
    assert_eq!(
        NormalizedString::new("A\r\nstring\rwith\ninvalid\tcharacters").to_string(),
        "A string with invalid characters".to_string()
    );
    assert_eq!(NormalizedString::new("\r\n"), NormalizedString(" ".to_string()));
    assert_eq!(NormalizedString::new("\n\r"), NormalizedString("  ".to_string()));
    assert_eq!(NormalizedString::new("\r\r\n"), NormalizedString("  ".to_string()));
    assert_eq!(NormalizedString::new("\r\n\n"), NormalizedString("  ".to_string()));
    assert_eq!(NormalizedString::new("\r\n\r\n"), NormalizedString("  ".to_string()));
    assert_eq!(NormalizedString::new("\t\t"), NormalizedString("  ".to_string()));
    assert_eq!(NormalizedString::new("a\r"), NormalizedString("a ".to_string()));
}

#[test]
fn nothing_but_line_controls_is_changed() {
    assert_eq!(NormalizedString::new(""), NormalizedString(String::new()));
    assert_eq!(
        NormalizedString::new("  Mixed Case, trailing  "),
        NormalizedString("  Mixed Case, trailing  ".to_string())
    );
    assert_eq!(
        NormalizedString::new("h\u{e9}llo\tw\u{f6}rld"),
        NormalizedString("h\u{e9}llo w\u{f6}rld".to_string())
    );
}

#[test]
fn what_the_constructor_builds_passes_validation() {
    for text in ["", "plain", "a\tb", "a\r\nb", "\r", "\n", "\r\n\r\n\t", "x\ry\nz"] {
        let normalized = NormalizedString::new(text);

        assert_eq!(normalized.validate(), ValidationResult::Passed);
        assert!(normalized.is_valid());
        assert!(!normalized.as_str().contains(['\r', '\n', '\t']));
    }
}

#[test]
fn each_line_control_fails_validation() {
    for text in ["a\rb", "a\nb", "a\tb", "a\r\nb", "\t", "end\n"] {
        let raw = NormalizedString::new_unchecked(text.to_string());

        assert!(!raw.is_valid());
        assert_eq!(
            raw.validate(),
            ValidationResult::failure(
                "NormalizedString contains invalid characters \\r \\n \\t or \\r\\n",
                ValidationContext::default()
            )
        );
    }
}

#[test]
fn the_default_is_the_empty_text() {
    assert_eq!(NormalizedString::default(), NormalizedString(String::new()));
}

#[test]
fn normalized_text_reads_as_plain_text() {
    let normalized = NormalizedString::new("some\ttext");
    let as_text: &str = normalized.as_ref();

    assert_eq!(as_text, "some text");
    assert_eq!(&*normalized, "some text");
    assert_eq!(normalized.as_str(), "some text");
    assert_eq!(normalized.clone(), normalized);
}
