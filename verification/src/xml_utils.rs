//! The tokenizer and the emitter.
//!
//! Both belong to the `xml` crate. The tokenizer turns the bytes of a document
//! into reader events, the emitter turns writer events into bytes, indented.
//! What either produces is not proved here; it is given a name, and the
//! contracts of this library speak of those names.

use crate::events::{
    Attribute, QName, ReaderEvent, ReaderEventView, Version, WriterEvent, WriterEventView,
};
use std::borrow::Cow;
use vstd::prelude::*;
use xml::attribute::OwnedAttribute;
use xml::common::XmlVersion;
use xml::name::{Name, OwnedName};
use xml::namespace::Namespace;
use xml::reader::XmlEvent as ReaderXmlEvent;
use xml::writer::XmlEvent as WriterXmlEvent;

verus! {

/// `xml::reader::Error`: why the tokenizer gave up. Carried through unread.
#[verifier::external_type_specification]
#[verifier::external_body]
pub struct ExReaderError(xml::reader::Error);

/// `xml::writer::Error`: why the emitter gave up. Carried through unread.
#[verifier::external_type_specification]
#[verifier::external_body]
pub struct ExWriterError(xml::writer::Error);

/// `xml::reader::XmlEvent`: an event as the tokenizer makes it.
#[verifier::external_type_specification]
#[verifier::external_body]
pub struct ExReaderEvent(xml::reader::XmlEvent);

/// `xml::writer::XmlEvent`: an event as the emitter takes it.
#[verifier::external_type_specification]
#[verifier::external_body]
pub struct ExWriterEvent<'a>(xml::writer::XmlEvent<'a>);

/// `xml::name::OwnedName`: a qualified name that owns its strings.
#[verifier::external_type_specification]
#[verifier::external_body]
pub struct ExOwnedName(xml::name::OwnedName);

/// `xml::name::Name`: a qualified name that borrows its strings.
#[verifier::external_type_specification]
#[verifier::external_body]
pub struct ExName<'a>(xml::name::Name<'a>);

/// `xml::attribute::OwnedAttribute`: an attribute that owns its strings.
#[verifier::external_type_specification]
#[verifier::external_body]
pub struct ExOwnedAttribute(xml::attribute::OwnedAttribute);

/// `xml::common::XmlVersion`: the version in a document declaration.
#[verifier::external_type_specification]
#[verifier::external_body]
pub struct ExXmlVersion(xml::common::XmlVersion);

/// What an `xml::reader::EventReader` that keeps comments finds in `input`,
/// in order: each event it reads, and `None` where it reports an error.
pub uninterp spec fn xml_events(input: Seq<u8>) -> Seq<Option<ReaderEventView>>;

/// What an `xml::writer::EventWriter` that indents, and pads no comment,
/// makes of `events`, handed to it in order until it refuses one: the bytes it
/// writes, and whether it took every event.
pub uninterp spec fn xml_document(events: Seq<WriterEventView>) -> (Seq<u8>, bool);

/// One item of the tokenizer: an event, or the error that ended the reading.
pub type Token = Result<ReaderEvent, xml::reader::Error>;

/// The view of a token: the view of its event, or `None` for an error.
pub open spec fn token_view(token: Token) -> Option<ReaderEventView> {
    match token {
        Ok(event) => Some(event.deep_view()),
        Err(_) => None,
    }
}

/// The views of tokens, in order.
pub open spec fn token_views(tokens: Seq<Token>) -> Seq<Option<ReaderEventView>> {
    tokens.map_values(|token: Token| token_view(token))
}

/// Moves the three parts of an `xml::name::OwnedName` into a `QName`.
#[verifier::external_body]
fn owned_name_to_qname(owned: OwnedName) -> QName {
    QName { local_name: owned.local_name, namespace: owned.namespace, prefix: owned.prefix }
}

/// Moves the two parts of an `xml::attribute::OwnedAttribute` into an
/// `Attribute`.
#[verifier::external_body]
fn owned_attribute_to_attribute(owned: OwnedAttribute) -> Attribute {
    Attribute { name: owned_name_to_qname(owned.name), value: owned.value }
}

/// The `Version` that stands for an `xml::common::XmlVersion`.
#[verifier::external_body]
fn version_read(version: XmlVersion) -> Version {
    match version {
        XmlVersion::Version10 => Version::Version10,
        XmlVersion::Version11 => Version::Version11,
    }
}

/// Moves the parts of an `xml::reader::XmlEvent` into the `ReaderEvent` of the
/// same variant. The namespace bindings come in the order of their prefixes.
#[verifier::external_body]
fn reader_event(event: ReaderXmlEvent) -> ReaderEvent {
    match event {
        ReaderXmlEvent::StartDocument { version, encoding, standalone } => ReaderEvent::StartDocument { version: version_read(version), encoding, standalone },
        ReaderXmlEvent::EndDocument => ReaderEvent::EndDocument,
        ReaderXmlEvent::ProcessingInstruction { name, data } => ReaderEvent::ProcessingInstruction { name, data },
        ReaderXmlEvent::StartElement { name, attributes, namespace } => ReaderEvent::StartElement { name: owned_name_to_qname(name), attributes: attributes.into_iter().map(owned_attribute_to_attribute).collect(), namespace: namespace.0.into_iter().collect() },
        ReaderXmlEvent::EndElement { name } => ReaderEvent::EndElement { name: owned_name_to_qname(name) },
        ReaderXmlEvent::CData(text) => ReaderEvent::CData(text),
        ReaderXmlEvent::Comment(text) => ReaderEvent::Comment(text),
        ReaderXmlEvent::Characters(text) => ReaderEvent::Characters(text),
        ReaderXmlEvent::Whitespace(text) => ReaderEvent::Whitespace(text),
    }
}

/// Reads a whole document with an `xml::reader::EventReader` that is told to
/// hand out comments too, and collects every item of its iterator.
///
/// Trusted: the reader looks at nothing but the bytes, so the items are
/// `xml_events` of the bytes; and it comes back on every input. The `xml`
/// crate warns that its parser may panic, without naming an input on which it
/// does.
#[verifier::external_body]
pub(crate) fn tokenize(input: &[u8]) -> (tokens: Vec<Token>)
    ensures
        token_views(tokens@) == xml_events(input@),
{
    let reader = xml::ParserConfig::new().ignore_comments(false).create_reader(input);
    reader.into_iter().map(|item| item.map(reader_event)).collect()
}

/// Borrows the three parts of a `QName` as an `xml::name::Name`.
#[verifier::external_body]
fn owned_name_to_name(owned: &QName) -> Name<'_> {
    Name {
        local_name: owned.local_name.as_str(),
        namespace: owned.namespace.as_deref(),
        prefix: owned.prefix.as_deref(),
    }
}

/// The `xml::common::XmlVersion` that a `Version` stands for.
#[verifier::external_body]
fn version_written(version: Version) -> XmlVersion {
    match version {
        Version::Version10 => XmlVersion::Version10,
        Version::Version11 => XmlVersion::Version11,
    }
}

/// Builds the opening tag that the emitter takes: the name and the attributes
/// are borrowed, and the bindings are collected into an
/// `xml::namespace::Namespace`, where of two bindings with one prefix the
/// later stays.
#[verifier::external_body]
fn start_element_written<'a>(
    name: &'a QName,
    attributes: &'a Vec<Attribute>,
    namespace: &'a Vec<(String, String)>,
) -> WriterXmlEvent<'a> {
    WriterXmlEvent::StartElement {
        name: owned_name_to_name(name),
        attributes: attributes.iter().map(|a| xml::attribute::Attribute::new(owned_name_to_name(&a.name), &a.value)).collect(),
        namespace: Cow::Owned(Namespace(namespace.iter().cloned().collect())),
    }
}

/// Builds the `xml::writer::XmlEvent` of the same variant from the parts of a
/// `WriterEvent`.
#[verifier::external_body]
fn writer_event(event: &WriterEvent) -> WriterXmlEvent<'_> {
    match event {
        WriterEvent::StartDocument { version, encoding, standalone } => WriterXmlEvent::StartDocument { version: version_written(*version), encoding: encoding.as_deref(), standalone: *standalone },
        WriterEvent::ProcessingInstruction { name, data } => WriterXmlEvent::ProcessingInstruction { name, data: data.as_deref() },
        WriterEvent::StartElement { name, attributes, namespace } => start_element_written(name, attributes, namespace),
        WriterEvent::EndElement { name } => WriterXmlEvent::EndElement { name: name.as_ref().map(owned_name_to_name) },
        WriterEvent::CData(text) => WriterXmlEvent::CData(text),
        WriterEvent::Comment(text) => WriterXmlEvent::Comment(text),
        WriterEvent::Characters(text) => WriterXmlEvent::Characters(text),
    }
}

/// Writes a document with an `xml::writer::EventWriter` that indents and
/// leaves comments as they are: the events go to `EventWriter::write` in
/// order, and the first refusal ends the writing.
///
/// Trusted: the writer starts afresh and appends to `sink`, so what it appends
/// and whether it took every event are `xml_document` of the events.
#[verifier::external_body]
pub(crate) fn emit(events: &Vec<WriterEvent>, sink: &mut Vec<u8>) -> (result: Result<
    (),
    xml::writer::Error,
>)
    ensures
        final(sink)@ == old(sink)@ + xml_document(events.deep_view()).0,
        result is Ok <==> xml_document(events.deep_view()).1,
{
    let config = xml::EmitterConfig::new().perform_indent(true).autopad_comments(false);
    let mut writer = config.create_writer(sink);
    events.iter().try_for_each(|event| writer.write(writer_event(event)))
}

} // verus!
