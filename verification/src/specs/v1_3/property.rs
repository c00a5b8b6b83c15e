//! Properties as version 1.3 of the format writes them: the value of a
//! property is plain text, and a property is an element that holds its
//! name as an attribute and its value as text.

use crate::external_models::normalized_string::NormalizedString;
use crate::models;
use crate::models::property::PropertyModel;
use crate::sequences::vec_eq;
use crate::xml::{
    lemma_characters_well_nested, lemma_element_well_nested, lemma_empty_well_nested,
    lemma_well_nested_concat, well_nested, AttributeModel, ToXml, WriteModel, XmlWriter,
};
use vstd::prelude::*;

verus! {

/// A property as it travels.
#[derive(Debug, Eq)]
pub struct Property {
    pub name: String,
    pub value: String,
}

/// The mathematical model of a [`Property`] as it travels.
pub struct WirePropertyModel {
    pub name: Seq<char>,
    pub value: Seq<char>,
}

impl WirePropertyModel {
    /// The shape in which `property` travels.
    pub open spec fn of(property: PropertyModel) -> WirePropertyModel {
        WirePropertyModel { name: property.name, value: property.value }
    }

    /// The property that travelled in this shape.
    pub open spec fn canonical(self) -> PropertyModel {
        PropertyModel { name: self.name, value: self.value }
    }

    /// What a property of this shape writes: its opening tag with the name
    /// as an attribute, its value as text, and its closing tag.
    pub open spec fn xml(self) -> Seq<WriteModel> {
        seq![
            WriteModel::start(
                "property"@,
                seq![AttributeModel { name: "name"@, value: self.name }],
            ),
            WriteModel::characters("property"@, self.value),
            WriteModel::end("property"@),
        ]
    }
}

/// The shapes in which `properties` travel, in their order.
pub open spec fn wire_properties(properties: Seq<PropertyModel>) -> Seq<WirePropertyModel> {
    properties.map_values(|property: PropertyModel| WirePropertyModel::of(property))
}

/// The properties that travelled in the shapes `properties`, in their
/// order.
pub open spec fn canonical_properties(properties: Seq<WirePropertyModel>) -> Seq<PropertyModel> {
    properties.map_values(|property: WirePropertyModel| property.canonical())
}

/// What the properties `properties` write, one after the other.
pub open spec fn xml_of_each(properties: Seq<WirePropertyModel>) -> Seq<WriteModel>
    decreases properties.len(),
{
    if properties.len() == 0 {
        Seq::empty()
    } else {
        xml_of_each(properties.drop_last()) + properties.last().xml()
    }
}

impl View for Property {
    type V = WirePropertyModel;

    open spec fn view(&self) -> WirePropertyModel {
        WirePropertyModel { name: self.name@, value: self.value@ }
    }
}

impl DeepView for Property {
    type V = WirePropertyModel;

    open spec fn deep_view(&self) -> WirePropertyModel {
        self@
    }
}

impl PartialEq for Property {
    fn eq(&self, other: &Self) -> (equal: bool) {
        self.name == other.name && self.value == other.value
    }
}

impl vstd::std_specs::cmp::PartialEqSpecImpl for Property {
    open spec fn obeys_eq_spec() -> bool {
        true
    }

    open spec fn eq_spec(&self, other: &Self) -> bool {
        self@ == other@
    }
}

impl From<models::property::Property> for Property {
    fn from(other: models::property::Property) -> (wire: Self)
        ensures
            wire@ == WirePropertyModel::of(other@),
    {
        Property { name: other.name, value: other.value.0 }
    }
}

impl vstd::std_specs::convert::FromSpecImpl<models::property::Property> for Property {
    open spec fn obeys_from_spec() -> bool {
        true
    }

    open spec fn from_spec(other: models::property::Property) -> Self {
        Property { name: other.name, value: other.value.0 }
    }
}

impl From<Property> for models::property::Property {
    fn from(other: Property) -> (property: Self)
        ensures
            property@ == other@.canonical(),
    {
        models::property::Property {
            name: other.name,
            value: NormalizedString::new_unchecked(other.value),
        }
    }
}

impl vstd::std_specs::convert::FromSpecImpl<Property> for models::property::Property {
    open spec fn obeys_from_spec() -> bool {
        true
    }

    open spec fn from_spec(other: Property) -> Self {
        models::property::Property { name: other.name, value: NormalizedString(other.value) }
    }
}

impl ToXml for Property {
    open spec fn spec_tag(&self) -> Seq<char> {
        "property"@
    }

    open spec fn spec_xml(&self) -> Seq<WriteModel> {
        self@.xml()
    }

    proof fn lemma_xml_is_element(&self) {
        let writes = self.spec_xml();
        lemma_characters_well_nested("property"@, self.value@);
        assert(writes.subrange(1, writes.len() - 1) =~= seq![
            WriteModel::characters("property"@, self.value@),
        ]);
    }

    fn write_xml_element(&self, writer: &mut XmlWriter) {
        writer.start_element_with_attribute("property", "name", self.name.as_str());
        writer.characters("property", self.value.as_str());
        writer.end_element("property");
        assert(writer@ =~= old(writer)@ + self.spec_xml());
    }
}

/// The properties of a node as they travel, in their order.
#[derive(Debug, Eq)]
pub struct Properties(pub Vec<Property>);

impl View for Properties {
    type V = Seq<WirePropertyModel>;

    open spec fn view(&self) -> Seq<WirePropertyModel> {
        self.0.deep_view()
    }
}

impl PartialEq for Properties {
    fn eq(&self, other: &Self) -> (equal: bool) {
        vec_eq(&self.0, &other.0)
    }
}

impl vstd::std_specs::cmp::PartialEqSpecImpl for Properties {
    open spec fn obeys_eq_spec() -> bool {
        true
    }

    open spec fn eq_spec(&self, other: &Self) -> bool {
        self@ == other@
    }
}

/// The vector that comes back is a new one, so the conversion states the
/// model of what it gives, not the value itself.
impl From<models::property::Properties> for Properties {
    fn from(other: models::property::Properties) -> (wire: Self)
        ensures
            wire@ == wire_properties(other@),
    {
        let ghost properties = other@;
        let mut converted: Vec<Property> = Vec::new();
        for property in it: other.0
            invariant
                it.seq().len() == properties.len(),
                forall|i: int| 0 <= i < it.seq().len() ==> it.seq()[i]@ == properties[i],
                converted.len() == it.index(),
                forall|i: int|
                    0 <= i < it.index() ==> converted[i]@ == WirePropertyModel::of(properties[i]),
        {
            converted.push(Property::from(property));
        }
        let wire = Properties(converted);
        assert(wire@ =~= wire_properties(properties));
        wire
    }
}

impl vstd::std_specs::convert::FromSpecImpl<models::property::Properties> for Properties {
    open spec fn obeys_from_spec() -> bool {
        false
    }

    open spec fn from_spec(other: models::property::Properties) -> Self {
        choose|wire: Properties| wire@ == wire_properties(other@)
    }
}

/// The vector that comes back is a new one, so the conversion states the
/// model of what it gives, not the value itself.
impl From<Properties> for models::property::Properties {
    fn from(other: Properties) -> (properties: Self)
        ensures
            properties@ == canonical_properties(other@),
    {
        let ghost wire = other@;
        let mut converted: Vec<models::property::Property> = Vec::new();
        for property in it: other.0
            invariant
                it.seq().len() == wire.len(),
                forall|i: int| 0 <= i < it.seq().len() ==> it.seq()[i]@ == wire[i],
                converted.len() == it.index(),
                forall|i: int| 0 <= i < it.index() ==> converted[i]@ == wire[i].canonical(),
        {
            converted.push(models::property::Property::from(property));
        }
        let properties = models::property::Properties(converted);
        assert(properties@ =~= canonical_properties(wire));
        properties
    }
}

impl vstd::std_specs::convert::FromSpecImpl<Properties> for models::property::Properties {
    open spec fn obeys_from_spec() -> bool {
        false
    }

    open spec fn from_spec(other: Properties) -> Self {
        choose|properties: models::property::Properties|
            properties@ == canonical_properties(other@)
    }
}

/// What properties write, one after the other, is well nested.
pub proof fn lemma_xml_of_each_well_nested(properties: Seq<WirePropertyModel>)
    ensures
        well_nested(xml_of_each(properties)),
    decreases properties.len(),
{
    if properties.len() == 0 {
        lemma_empty_well_nested();
    } else {
        let last = properties.last().xml();
        lemma_xml_of_each_well_nested(properties.drop_last());
        lemma_characters_well_nested("property"@, properties.last().value);
        assert(last.subrange(1, last.len() - 1) =~= seq![
            WriteModel::characters("property"@, properties.last().value),
        ]);
        lemma_element_well_nested(last, "property"@);
        lemma_well_nested_concat(xml_of_each(properties.drop_last()), last);
    }
}

impl ToXml for Properties {
    open spec fn spec_tag(&self) -> Seq<char> {
        "properties"@
    }

    open spec fn spec_xml(&self) -> Seq<WriteModel> {
        seq![WriteModel::start("properties"@, Seq::empty())] + xml_of_each(self@) + seq![
            WriteModel::end("properties"@),
        ]
    }

    proof fn lemma_xml_is_element(&self) {
        let writes = self.spec_xml();
        lemma_xml_of_each_well_nested(self@);
        assert(writes.subrange(1, writes.len() - 1) =~= xml_of_each(self@));
    }

    fn write_xml_element(&self, writer: &mut XmlWriter) {
        let ghost before = writer@;
        let ghost opened = before.push(WriteModel::start("properties"@, Seq::empty()));
        writer.start_element("properties");
        proof {
            assert(self@.take(0) =~= Seq::<WirePropertyModel>::empty());
            assert(opened + xml_of_each(self@.take(0)) =~= opened);
        }
        let mut i: usize = 0;
        while i < self.0.len()
            invariant
                i <= self.0.len(),
                opened == before.push(WriteModel::start("properties"@, Seq::empty())),
                writer@ == opened + xml_of_each(self@.take(i as int)),
            decreases self.0.len() - i,
        {
            proof {
                let next = self@.take(i + 1);
                assert(next.drop_last() =~= self@.take(i as int));
                assert(next.last() == self.0[i as int]@);
                assert(opened + xml_of_each(self@.take(i as int)) + self.0[i as int].spec_xml()
                    =~= opened + xml_of_each(next));
            }
            self.0[i].write_xml_element(writer);
            i += 1;
        }
        writer.end_element("properties");
        proof {
            assert(self@.take(i as int) =~= self@);
            assert(writer@ =~= before + self.spec_xml());
        }
    }
}

/// A property that travels and comes back is the property that left.
pub proof fn lemma_property_round_trip(property: PropertyModel)
    ensures
        WirePropertyModel::of(property).canonical() == property,
{
}

/// Properties that travel and come back are the properties that left, in
/// their order.
pub proof fn lemma_properties_round_trip(properties: Seq<PropertyModel>)
    ensures
        canonical_properties(wire_properties(properties)) == properties,
{
    assert(canonical_properties(wire_properties(properties)) =~= properties);
}

/// A shape that is read and written again is the shape that was read.
pub proof fn lemma_wire_properties_round_trip(properties: Seq<WirePropertyModel>)
    ensures
        wire_properties(canonical_properties(properties)) == properties,
{
    assert(wire_properties(canonical_properties(properties)) =~= properties);
}

} // verus!
