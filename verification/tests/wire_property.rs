use cyclonedx_bom::external_models::normalized_string::NormalizedString;
use cyclonedx_bom::models;
use cyclonedx_bom::specs::v1_3::property::{Properties, Property};
use cyclonedx_bom::validation::{Validate, ValidationResult};
use cyclonedx_bom::xml::{
    to_xml_write_error, ToXml, XmlAttribute, XmlEvent, XmlWrite, XmlWriteError, XmlWriter,
};

fn example_properties() -> Properties {
    Properties(vec![Property {
        name: "name".to_string(),
        value: "value".to_string(),
    }])
}

fn corresponding_properties() -> models::property::Properties {
    models::property::Properties(vec![models::property::Property {
        name: "name".to_string(),
        value: NormalizedString::new_unchecked("value".to_string()),
    }])
}

fn start(tag: &str, attributes: Vec<XmlAttribute>) -> XmlWrite {
    XmlWrite {
        event: XmlEvent::StartElement {
            name: tag.to_string(),
            attributes,
        },
        element: tag.to_string(),
    }
}

fn characters(tag: &str, text: &str) -> XmlWrite {
    XmlWrite {
        event: XmlEvent::Characters(text.to_string()),
        element: tag.to_string(),
    }
}

fn end(tag: &str) -> XmlWrite {
    XmlWrite {
        event: XmlEvent::EndElement,
        element: tag.to_string(),
    }
}

#[test]
fn properties_write_their_events_in_order() {
    let mut writer = XmlWriter::new();
    example_properties().write_xml_element(&mut writer);

    assert_eq!(
        writer,
        XmlWriter(vec![
            start("properties", Vec::new()),
            start(
                "property",
                vec![XmlAttribute {
                    name: "name".to_string(),
                    value: "name".to_string(),
                }]
            ),
            characters("property", "value"),
            end("property"),
            end("properties"),
        ])
    );
}

#[test]
fn no_properties_write_an_empty_element() {
    let mut writer = XmlWriter::new();
    Properties(Vec::new()).write_xml_element(&mut writer);

    assert_eq!(
        writer,
        XmlWriter(vec![start("properties", Vec::new()), end("properties")])
    );
}

#[test]
fn properties_are_written_in_their_order_after_what_was_written() {
    let mut writer = XmlWriter::new();
    writer.start_element("bom");
    Properties(vec![
        Property {
            name: "first".to_string(),
            value: "1 < 2".to_string(),
        },
        Property {
            name: "second".to_string(),
            value: "".to_string(),
        },
    ])
    .write_xml_element(&mut writer);
    writer.end_element("bom");

    assert_eq!(
        writer,
        XmlWriter(vec![
            start("bom", Vec::new()),
            start("properties", Vec::new()),
            start(
                "property",
                vec![XmlAttribute {
                    name: "name".to_string(),
                    value: "first".to_string(),
                }]
            ),
            characters("property", "1 < 2"),
            end("property"),
            start(
                "property",
                vec![XmlAttribute {
                    name: "name".to_string(),
                    value: "second".to_string(),
                }]
            ),
            characters("property", ""),
            end("property"),
            end("properties"),
            end("bom"),
        ])
    );
}

#[test]
fn a_single_property_is_one_element() {
    let mut writer = XmlWriter::new();
    Property {
        name: "name".to_string(),
        value: "value".to_string(),
    }
    .write_xml_element(&mut writer);

    assert_eq!(
        writer,
        XmlWriter(vec![
            start(
                "property",
                vec![XmlAttribute {
                    name: "name".to_string(),
                    value: "name".to_string(),
                }]
            ),
            characters("property", "value"),
            end("property"),
        ])
    );
}

#[test]
fn a_refused_event_names_its_element() {
    assert_eq!(
        to_xml_write_error(&characters("property", "value"), "the stream is closed"),
        XmlWriteError {
            element: "property".to_string(),
            cause: "the stream is closed".to_string(),
        }
    );
}

#[test]
fn it_can_convert_to_the_wire_shape() {
    let wire: Properties = corresponding_properties().into();

    assert_eq!(wire, example_properties());
}

#[test]
fn it_can_convert_from_the_wire_shape() {
    let properties: models::property::Properties = example_properties().into();

    assert_eq!(properties, corresponding_properties());
}

#[test]
fn a_round_trip_gives_the_properties_back() {
    let properties = models::property::Properties(vec![
        models::property::Property::new("first", "one\ttwo"),
        models::property::Property::new("second", ""),
        models::property::Property::new("third", "three"),
    ]);
    assert_eq!(properties.validate(), ValidationResult::Passed);

    let wire: Properties = properties.clone().into();
    let back: models::property::Properties = wire.into();

    assert_eq!(back, properties);
}

#[test]
fn reading_does_not_judge_the_values() {
    let properties: models::property::Properties = Properties(vec![Property {
        name: "name".to_string(),
        value: "spaces and \ttabs".to_string(),
    }])
    .into();

    assert_eq!(
        properties,
        models::property::Properties(vec![models::property::Property {
            name: "name".to_string(),
            value: NormalizedString("spaces and \ttabs".to_string()),
        }])
    );
    assert_ne!(properties.validate(), ValidationResult::Passed);
}
