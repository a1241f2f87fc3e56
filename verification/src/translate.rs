//! From reader events to writer events.
//!
//! Every reader event has a translation: one writer event, or none. White
//! space between tags and the end of the document have none, since the emitter
//! indents the output itself and needs no marker for its end. An opening tag
//! keeps its name, its namespace bindings and its attributes, in their order;
//! the value of an attribute named `fill` or `stroke` gives way to its
//! replacement. Everything else passes through as it is.

use crate::cache::replacement;
use crate::colors::color_bearing;
use crate::events::{AttributeView, ReaderEvent, ReaderEventView, WriterEvent, WriterEventView};
use vstd::prelude::*;

verus! {

/// The attribute that stands in the output for `attribute`: the same name,
/// and the same value unless the attribute carries a color.
pub open spec fn rewritten_attribute(attribute: AttributeView) -> AttributeView {
    AttributeView {
        name: attribute.name,
        value: if color_bearing(attribute.name.local_name) {
            replacement(attribute.value)
        } else {
            attribute.value
        },
    }
}

/// The attributes that stand in the output for `attributes`: as many, in the
/// same order, each rewritten by itself.
pub open spec fn rewritten(attributes: Seq<AttributeView>) -> Seq<AttributeView> {
    attributes.map_values(|attribute: AttributeView| rewritten_attribute(attribute))
}

/// The writer event that carries what `event` carries, if any does.
pub open spec fn carried_over(event: ReaderEventView) -> Option<WriterEventView> {
    match event {
        ReaderEventView::StartDocument { version, encoding, standalone } => Some(
            WriterEventView::StartDocument { version, encoding: Some(encoding), standalone },
        ),
        ReaderEventView::EndDocument => None,
        ReaderEventView::ProcessingInstruction { name, data } => Some(
            WriterEventView::ProcessingInstruction { name, data },
        ),
        ReaderEventView::StartElement { name, attributes, namespace } => Some(
            WriterEventView::StartElement { name, attributes, namespace },
        ),
        ReaderEventView::EndElement { name } => Some(WriterEventView::EndElement { name: None }),
        ReaderEventView::CData(text) => Some(WriterEventView::CData(text)),
        ReaderEventView::Comment(text) => Some(WriterEventView::Comment(text)),
        ReaderEventView::Characters(text) => Some(WriterEventView::Characters(text)),
        ReaderEventView::Whitespace(_) => None,
    }
}

/// The translation of `event`: what `carried_over` gives, with the attributes
/// of an opening tag rewritten.
pub open spec fn translated(event: ReaderEventView) -> Option<WriterEventView> {
    match event {
        ReaderEventView::StartElement { name, attributes, namespace } => Some(
            WriterEventView::StartElement { name, attributes: rewritten(attributes), namespace },
        ),
        _ => carried_over(event),
    }
}

/// The translations of `events`, in order, without the events that have none.
pub open spec fn translated_all(events: Seq<ReaderEventView>) -> Seq<WriterEventView>
    decreases events.len(),
{
    if events.len() == 0 {
        Seq::empty()
    } else {
        match translated(events.last()) {
            Some(event) => translated_all(events.drop_last()).push(event),
            None => translated_all(events.drop_last()),
        }
    }
}

/// Rewriting keeps the structure of an attribute list: the number of the
/// attributes, their order and their names. A value changes only on an
/// attribute that carries a color, and there it becomes the replacement.
pub proof fn lemma_rewriting_preserves_structure(attributes: Seq<AttributeView>)
    ensures
        rewritten(attributes).len() == attributes.len(),
        forall|i: int|
            0 <= i < attributes.len() ==> (#[trigger] rewritten(attributes)[i]).name
                == attributes[i].name,
        forall|i: int|
            0 <= i < attributes.len() && !color_bearing(attributes[i].name.local_name)
                ==> #[trigger] rewritten(attributes)[i] == attributes[i],
        forall|i: int|
            0 <= i < attributes.len() && color_bearing(attributes[i].name.local_name) ==> (
            #[trigger] rewritten(attributes)[i]).value == replacement(attributes[i].value),
{
}

/// Translation keeps the structure of a document. An opening tag keeps its
/// name and its namespace bindings and has its attributes rewritten; a
/// closing tag stays a closing tag; comments, CDATA sections, character data
/// and processing instructions keep their text; the declaration keeps its
/// version and its standalone flag and states its encoding. Only white space
/// and the end of the document are dropped.
pub proof fn lemma_translation_preserves_structure(event: ReaderEventView)
    ensures
        event matches ReaderEventView::StartElement { name, attributes, namespace }
            ==> translated(event) == Some(
            WriterEventView::StartElement { name, attributes: rewritten(attributes), namespace },
        ),
        event is EndElement ==> translated(event) == Some(
            WriterEventView::EndElement { name: None },
        ),
        event matches ReaderEventView::Comment(text) ==> translated(event) == Some(
            WriterEventView::Comment(text),
        ),
        event matches ReaderEventView::CData(text) ==> translated(event) == Some(
            WriterEventView::CData(text),
        ),
        event matches ReaderEventView::Characters(text) ==> translated(event) == Some(
            WriterEventView::Characters(text),
        ),
        event matches ReaderEventView::ProcessingInstruction { name, data } ==> translated(event)
            == Some(WriterEventView::ProcessingInstruction { name, data }),
        event matches ReaderEventView::StartDocument { version, encoding, standalone }
            ==> translated(event) == Some(
            WriterEventView::StartDocument { version, encoding: Some(encoding), standalone },
        ),
        translated(event) is None <==> event is Whitespace || event is EndDocument,
{
}

/// Translation keeps the order of the events: the translations of one run of
/// events followed by another are the translations of the first followed by
/// those of the second.
pub proof fn lemma_translation_preserves_order(
    first: Seq<ReaderEventView>,
    second: Seq<ReaderEventView>,
)
    ensures
        translated_all(first + second) == translated_all(first) + translated_all(second),
    decreases second.len(),
{
    if second.len() == 0 {
        assert(first + second =~= first);
        assert(translated_all(first) + translated_all(second) =~= translated_all(first));
    } else {
        lemma_translation_preserves_order(first, second.drop_last());
        assert((first + second).drop_last() =~= first + second.drop_last());
        assert((first + second).last() == second.last());
        match translated(second.last()) {
            Some(event) => {
                assert(translated_all(first + second) =~= translated_all(first) + translated_all(
                    second,
                ));
            },
            None => {},
        }
    }
}

/// Carries a reader event over to the writer's side without changing any
/// value in it.
pub fn xml_reader_event_to_xml_writer_event(xml_reader_event: ReaderEvent) -> (writer_event:
    Option<WriterEvent>)
    ensures
        writer_event.deep_view() == carried_over(xml_reader_event.deep_view()),
{
    match xml_reader_event {
        ReaderEvent::StartElement { name, attributes, namespace } => Some(
            WriterEvent::StartElement { name, attributes, namespace },
        ),
        ReaderEvent::EndElement { name: _ } => Some(WriterEvent::EndElement { name: None }),
        ReaderEvent::Characters(data) => Some(WriterEvent::Characters(data)),
        ReaderEvent::Comment(data) => Some(WriterEvent::Comment(data)),
        ReaderEvent::CData(data) => Some(WriterEvent::CData(data)),
        ReaderEvent::Whitespace(_) => None,
        ReaderEvent::ProcessingInstruction { name, data } => Some(
            WriterEvent::ProcessingInstruction { name, data },
        ),
        ReaderEvent::StartDocument { version, encoding, standalone } => Some(
            WriterEvent::StartDocument { version, encoding: Some(encoding), standalone },
        ),
        ReaderEvent::EndDocument => None,
    }
}

} // verus!
