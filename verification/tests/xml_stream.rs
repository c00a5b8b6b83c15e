use cyclonedx_bom::specs::v1_3::property::{Properties, Property};
use cyclonedx_bom::xml::{ToXml, XmlEvent, XmlWriter};

fn write_element_to_string<T: ToXml>(record: T) -> String {
    let mut events = XmlWriter::new();
    record.write_xml_element(&mut events);

    let mut output = Vec::new();
    let mut writer = xml::EmitterConfig::default()
        .perform_indent(true)
        .create_writer(&mut output);
    for write in &events.0 {
        match &write.event {
            XmlEvent::StartElement { name, attributes } => {
                let mut start = xml::writer::XmlEvent::start_element(name.as_str());
                for attribute in attributes {
                    start = start.attr(attribute.name.as_str(), attribute.value.as_str());
                }
                writer.write(start)
            }
            XmlEvent::Characters(text) => writer.write(xml::writer::XmlEvent::characters(text)),
            XmlEvent::EndElement => writer.write(xml::writer::XmlEvent::end_element()),
        }
        .expect("the stream refused an event");
    }
    String::from_utf8_lossy(&output).to_string()
}

fn example_properties() -> Properties {
    Properties(vec![Property {
        name: "name".to_string(),
        value: "value".to_string(),
    }])
}

#[test]
fn it_should_write_xml_full() {
    let xml_output = write_element_to_string(example_properties());

    assert_eq!(
        xml_output,
        [
            "<?xml version=\"1.0\" encoding=\"UTF-8\"?>",
            "<properties>",
            "  <property name=\"name\">value</property>",
            "</properties>",
        ]
        .join("\n")
    );
}

#[test]
fn it_should_write_xml_properties_with_no_children() {
    let xml_output = write_element_to_string(Properties(Vec::new()));

    assert_eq!(
        xml_output,
        "<?xml version=\"1.0\" encoding=\"UTF-8\"?>\n<properties />"
    );
}

#[test]
fn text_and_attributes_are_escaped_by_the_stream() {
    let xml_output = write_element_to_string(Property {
        name: "a \"quoted\" name".to_string(),
        value: "1 < 2 & 3 > 2".to_string(),
    });

    assert_eq!(
        xml_output,
        [
            "<?xml version=\"1.0\" encoding=\"UTF-8\"?>",
            "<property name=\"a &quot;quoted&quot; name\">1 &lt; 2 &amp; 3 &gt; 2</property>",
        ]
        .join("\n")
    );
}
