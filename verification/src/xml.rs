//! Markup as a sequence of events: what a record writes, in the order in
//! which it writes it. Whoever holds the stream turns the events into
//! characters.

use crate::sequences::vec_eq;
use vstd::prelude::*;

verus! {

/// An attribute in the opening tag of an element.
#[derive(Debug, Eq)]
pub struct XmlAttribute {
    pub name: String,
    pub value: String,
}

/// The mathematical model of an [`XmlAttribute`].
pub struct AttributeModel {
    pub name: Seq<char>,
    pub value: Seq<char>,
}

impl View for XmlAttribute {
    type V = AttributeModel;

    open spec fn view(&self) -> AttributeModel {
        AttributeModel { name: self.name@, value: self.value@ }
    }
}

impl DeepView for XmlAttribute {
    type V = AttributeModel;

    open spec fn deep_view(&self) -> AttributeModel {
        self@
    }
}

impl PartialEq for XmlAttribute {
    fn eq(&self, other: &Self) -> (equal: bool) {
        self.name == other.name && self.value == other.value
    }
}

impl vstd::std_specs::cmp::PartialEqSpecImpl for XmlAttribute {
    open spec fn obeys_eq_spec() -> bool {
        true
    }

    open spec fn eq_spec(&self, other: &Self) -> bool {
        self@ == other@
    }
}

/// One event of a markup stream.
#[derive(Debug, Eq)]
pub enum XmlEvent {
    /// The opening tag of an element, with its attributes in their order.
    StartElement { name: String, attributes: Vec<XmlAttribute> },
    /// Text inside an element, not yet escaped.
    Characters(String),
    /// The closing tag of the element that was opened last and is still
    /// open.
    EndElement,
}

/// The mathematical model of an [`XmlEvent`].
pub enum EventModel {
    StartElement { name: Seq<char>, attributes: Seq<AttributeModel> },
    Characters(Seq<char>),
    EndElement,
}

impl View for XmlEvent {
    type V = EventModel;

    open spec fn view(&self) -> EventModel {
        match *self {
            XmlEvent::StartElement { name, attributes } => EventModel::StartElement {
                name: name@,
                attributes: attributes.deep_view(),
            },
            XmlEvent::Characters(text) => EventModel::Characters(text@),
            XmlEvent::EndElement => EventModel::EndElement,
        }
    }
}

impl PartialEq for XmlEvent {
    fn eq(&self, other: &Self) -> (equal: bool) {
        match (self, other) {
            (
                XmlEvent::StartElement { name: a, attributes: b },
                XmlEvent::StartElement { name: c, attributes: d },
            ) => *a == *c && vec_eq(b, d),
            (XmlEvent::Characters(a), XmlEvent::Characters(b)) => *a == *b,
            (XmlEvent::EndElement, XmlEvent::EndElement) => true,
            _ => false,
        }
    }
}

impl vstd::std_specs::cmp::PartialEqSpecImpl for XmlEvent {
    open spec fn obeys_eq_spec() -> bool {
        true
    }

    open spec fn eq_spec(&self, other: &Self) -> bool {
        self@ == other@
    }
}

/// An event to write, with the tag of the element that is to be named
/// should writing the event fail.
#[derive(Debug, Eq)]
pub struct XmlWrite {
    pub event: XmlEvent,
    pub element: String,
}

/// The mathematical model of an [`XmlWrite`].
pub struct WriteModel {
    pub event: EventModel,
    pub element: Seq<char>,
}

impl WriteModel {
    /// The opening tag of the element `tag` with `attributes`.
    pub open spec fn start(tag: Seq<char>, attributes: Seq<AttributeModel>) -> WriteModel {
        WriteModel { event: EventModel::StartElement { name: tag, attributes }, element: tag }
    }

    /// The text `text` inside the element `tag`.
    pub open spec fn characters(tag: Seq<char>, text: Seq<char>) -> WriteModel {
        WriteModel { event: EventModel::Characters(text), element: tag }
    }

    /// The closing tag of the element `tag`.
    pub open spec fn end(tag: Seq<char>) -> WriteModel {
        WriteModel { event: EventModel::EndElement, element: tag }
    }
}

impl View for XmlWrite {
    type V = WriteModel;

    open spec fn view(&self) -> WriteModel {
        WriteModel { event: self.event@, element: self.element@ }
    }
}

impl DeepView for XmlWrite {
    type V = WriteModel;

    open spec fn deep_view(&self) -> WriteModel {
        self@
    }
}

impl PartialEq for XmlWrite {
    fn eq(&self, other: &Self) -> (equal: bool) {
        self.event == other.event && self.element == other.element
    }
}

impl vstd::std_specs::cmp::PartialEqSpecImpl for XmlWrite {
    open spec fn obeys_eq_spec() -> bool {
        true
    }

    open spec fn eq_spec(&self, other: &Self) -> bool {
        self@ == other@
    }
}

/// The events that were written so far, in their order.
#[derive(Debug, Eq)]
pub struct XmlWriter(pub Vec<XmlWrite>);

impl View for XmlWriter {
    type V = Seq<WriteModel>;

    open spec fn view(&self) -> Seq<WriteModel> {
        self.0.deep_view()
    }
}

impl PartialEq for XmlWriter {
    fn eq(&self, other: &Self) -> (equal: bool) {
        vec_eq(&self.0, &other.0)
    }
}

impl vstd::std_specs::cmp::PartialEqSpecImpl for XmlWriter {
    open spec fn obeys_eq_spec() -> bool {
        true
    }

    open spec fn eq_spec(&self, other: &Self) -> bool {
        self@ == other@
    }
}

impl XmlWriter {
    /// A writer to which nothing was written yet.
    pub fn new() -> (writer: Self)
        ensures
            writer@ == Seq::<WriteModel>::empty(),
    {
        let writer = XmlWriter(Vec::new());
        assert(writer@ =~= Seq::<WriteModel>::empty());
        writer
    }

    /// Writes the opening tag of the element `tag` without attributes.
    pub fn start_element(&mut self, tag: &str)
        ensures
            final(self)@ == old(self)@.push(WriteModel::start(tag@, Seq::empty())),
    {
        let attributes: Vec<XmlAttribute> = Vec::new();
        assert(attributes.deep_view() =~= Seq::<AttributeModel>::empty());
        self.0.push(
            XmlWrite {
                event: XmlEvent::StartElement { name: tag.to_owned(), attributes },
                element: tag.to_owned(),
            },
        );
        assert(self@ =~= old(self)@.push(WriteModel::start(tag@, Seq::empty())));
    }

    /// Writes the opening tag of the element `tag` with the one attribute
    /// `name`, whose value is `value`.
    pub fn start_element_with_attribute(&mut self, tag: &str, name: &str, value: &str)
        ensures
            final(self)@ == old(self)@.push(
                WriteModel::start(tag@, seq![AttributeModel { name: name@, value: value@ }]),
            ),
    {
        let mut attributes: Vec<XmlAttribute> = Vec::new();
        attributes.push(XmlAttribute { name: name.to_owned(), value: value.to_owned() });
        assert(attributes.deep_view() =~= seq![AttributeModel { name: name@, value: value@ }]);
        self.0.push(
            XmlWrite {
                event: XmlEvent::StartElement { name: tag.to_owned(), attributes },
                element: tag.to_owned(),
            },
        );
        assert(self@ =~= old(self)@.push(
            WriteModel::start(tag@, seq![AttributeModel { name: name@, value: value@ }]),
        ));
    }

    /// Writes `text` as the text of the element `tag`.
    pub fn characters(&mut self, tag: &str, text: &str)
        ensures
            final(self)@ == old(self)@.push(WriteModel::characters(tag@, text@)),
    {
        self.0.push(
            XmlWrite { event: XmlEvent::Characters(text.to_owned()), element: tag.to_owned() },
        );
        assert(self@ =~= old(self)@.push(WriteModel::characters(tag@, text@)));
    }

    /// Writes the closing tag of the element `tag`.
    pub fn end_element(&mut self, tag: &str)
        ensures
            final(self)@ == old(self)@.push(WriteModel::end(tag@)),
    {
        self.0.push(XmlWrite { event: XmlEvent::EndElement, element: tag.to_owned() });
        assert(self@ =~= old(self)@.push(WriteModel::end(tag@)));
    }
}

/// Why a record could not be written as markup: the stream refused an
/// event of the element `element`, for the reason `cause`.
#[derive(Debug, Eq)]
pub struct XmlWriteError {
    pub element: String,
    pub cause: String,
}

/// The mathematical model of an [`XmlWriteError`].
pub struct WriteFault {
    pub element: Seq<char>,
    pub cause: Seq<char>,
}

impl View for XmlWriteError {
    type V = WriteFault;

    open spec fn view(&self) -> WriteFault {
        WriteFault { element: self.element@, cause: self.cause@ }
    }
}

impl PartialEq for XmlWriteError {
    fn eq(&self, other: &Self) -> (equal: bool) {
        self.element == other.element && self.cause == other.cause
    }
}

impl vstd::std_specs::cmp::PartialEqSpecImpl for XmlWriteError {
    open spec fn obeys_eq_spec() -> bool {
        true
    }

    open spec fn eq_spec(&self, other: &Self) -> bool {
        self@ == other@
    }
}

/// The error for an event `write` that the stream refused for the reason
/// `cause`: it names the element of that event.
pub fn to_xml_write_error(write: &XmlWrite, cause: &str) -> (error: XmlWriteError)
    ensures
        error@ == (WriteFault { element: write@.element, cause: cause@ }),
{
    XmlWriteError { element: write.element.clone(), cause: cause.to_owned() }
}

/// By how much an event changes the number of elements that are open.
pub open spec fn depth_change(event: EventModel) -> int {
    match event {
        EventModel::StartElement { .. } => 1,
        EventModel::Characters(_) => 0,
        EventModel::EndElement => -1,
    }
}

/// The number of elements that `writes` open and do not close, less the
/// number of closing tags that close nothing `writes` opened.
pub open spec fn depth(writes: Seq<WriteModel>) -> int
    decreases writes.len(),
{
    if writes.len() == 0 {
        0
    } else {
        depth(writes.drop_last()) + depth_change(writes.last().event)
    }
}

/// Whether `writes` close every element that they open, and nothing else:
/// what may stand inside an element.
pub open spec fn well_nested(writes: Seq<WriteModel>) -> bool {
    &&& depth(writes) == 0
    &&& forall|n: int| 0 <= n <= writes.len() ==> depth(#[trigger] writes.take(n)) >= 0
}

/// Whether `writes` are one element `tag`: its opening tag, then what
/// stands inside, well nested, then its closing tag.
pub open spec fn is_element(writes: Seq<WriteModel>, tag: Seq<char>) -> bool {
    &&& writes.len() >= 2
    &&& writes.first().event matches EventModel::StartElement { name, .. } && name == tag
    &&& writes.first().element == tag
    &&& writes.last() == WriteModel::end(tag)
    &&& well_nested(writes.subrange(1, writes.len() - 1))
}

/// The depth of a single event is the change that it makes.
pub proof fn lemma_depth_single(write: WriteModel)
    ensures
        depth(seq![write]) == depth_change(write.event),
{
    assert(seq![write].drop_last() =~= Seq::<WriteModel>::empty());
    assert(depth(Seq::<WriteModel>::empty()) == 0);
}

/// The depth of two sequences of events, one after the other, is the sum
/// of their depths.
pub proof fn lemma_depth_additive(first: Seq<WriteModel>, second: Seq<WriteModel>)
    ensures
        depth(first + second) == depth(first) + depth(second),
    decreases second.len(),
{
    if second.len() == 0 {
        assert(first + second =~= first);
    } else {
        lemma_depth_additive(first, second.drop_last());
        assert((first + second).drop_last() =~= first + second.drop_last());
        assert((first + second).last() == second.last());
    }
}

/// Two well-nested sequences of events, one after the other, are well
/// nested.
pub proof fn lemma_well_nested_concat(first: Seq<WriteModel>, second: Seq<WriteModel>)
    requires
        well_nested(first),
        well_nested(second),
    ensures
        well_nested(first + second),
{
    lemma_depth_additive(first, second);
    let both = first + second;
    assert forall|n: int| 0 <= n <= both.len() implies depth(#[trigger] both.take(n)) >= 0 by {
        if n <= first.len() {
            assert(both.take(n) =~= first.take(n));
        } else {
            assert(both.take(n) =~= first + second.take(n - first.len()));
            lemma_depth_additive(first, second.take(n - first.len()));
        }
    }
}

/// One element is well nested, so that it may stand inside another.
pub proof fn lemma_element_well_nested(writes: Seq<WriteModel>, tag: Seq<char>)
    requires
        is_element(writes, tag),
    ensures
        well_nested(writes),
{
    let inner = writes.subrange(1, writes.len() - 1);
    let opening = seq![writes.first()];
    let closing = seq![writes.last()];
    assert(writes =~= opening + inner + closing);
    lemma_depth_single(writes.first());
    lemma_depth_single(writes.last());
    lemma_depth_additive(opening, inner);
    lemma_depth_additive(opening + inner, closing);
    assert forall|n: int| 0 <= n <= writes.len() implies depth(#[trigger] writes.take(n)) >= 0 by {
        if n == 0 {
            assert(writes.take(0) =~= Seq::<WriteModel>::empty());
            assert(depth(Seq::<WriteModel>::empty()) == 0);
        } else if n < writes.len() {
            assert(writes.take(n) =~= opening + inner.take(n - 1));
            lemma_depth_additive(opening, inner.take(n - 1));
            assert(depth(inner.take(n - 1)) >= 0);
        } else {
            assert(writes.take(n) =~= writes);
        }
    }
}

/// Nothing at all is well nested.
pub proof fn lemma_empty_well_nested()
    ensures
        well_nested(Seq::<WriteModel>::empty()),
{
    assert(depth(Seq::<WriteModel>::empty()) == 0);
    assert forall|n: int| 0 <= n <= 0 implies depth(
        #[trigger] Seq::<WriteModel>::empty().take(n),
    ) >= 0 by {
        assert(Seq::<WriteModel>::empty().take(n) =~= Seq::<WriteModel>::empty());
    }
}

/// Text alone is well nested.
pub proof fn lemma_characters_well_nested(tag: Seq<char>, text: Seq<char>)
    ensures
        well_nested(seq![WriteModel::characters(tag, text)]),
{
    let writes = seq![WriteModel::characters(tag, text)];
    lemma_depth_single(WriteModel::characters(tag, text));
    assert forall|n: int| 0 <= n <= writes.len() implies depth(#[trigger] writes.take(n)) >= 0 by {
        if n == 0 {
            assert(writes.take(0) =~= Seq::<WriteModel>::empty());
            assert(depth(Seq::<WriteModel>::empty()) == 0);
        } else {
            assert(writes.take(n) =~= writes);
        }
    }
}

/// A record that can be written as one element of markup.
pub trait ToXml {
    /// The tag of the element that this record is written as.
    spec fn spec_tag(&self) -> Seq<char>;

    /// What this record writes, in order.
    spec fn spec_xml(&self) -> Seq<WriteModel>;

    /// What a record writes is one element: the opening tag, what stands
    /// inside with every element closed again, and the matching closing
    /// tag.
    proof fn lemma_xml_is_element(&self)
        ensures
            is_element(self.spec_xml(), self.spec_tag()),
    ;

    /// Writes this record to `writer`, after what the writer already
    /// holds.
    fn write_xml_element(&self, writer: &mut XmlWriter)
        ensures
            final(writer)@ == old(writer)@ + self.spec_xml(),
    ;
}

} // verus!
