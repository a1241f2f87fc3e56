//! Inverts the colors of an SVG document.
//!
//! The document is read as a sequence of events, the `fill` and `stroke`
//! values of its elements are inverted, and the events are written out again,
//! indented. Nothing else in the document changes.

pub mod cache;
pub mod colors;
pub mod events;
pub mod translate;
pub mod xml_utils;

use crate::cache::{compute_replacement, memoizes, replacement, ColorCache};
use crate::colors::is_color_attribute;
use crate::events::{Attribute, ReaderEvent, ReaderEventView, WriterEvent, WriterEventView};
use crate::translate::{
    rewritten, rewritten_attribute, translated, translated_all,
    xml_reader_event_to_xml_writer_event,
};
use crate::xml_utils::{emit, token_view, token_views, tokenize, xml_document, xml_events, Token};
use std::sync::Arc;
use vstd::prelude::*;
use vstd::rwlock::{RwLock, RwLockPredicate};

verus! {

/// `std::io::Error`: why a stream failed. Carried through unread.
#[verifier::external_type_specification]
#[verifier::external_body]
pub struct ExIoError(std::io::Error);

/// Why a run came to nothing.
#[derive(Debug)]
pub enum InvertSvgError {
    /// The input or the output stream failed.
    Io(std::io::Error),
    /// The input is not a well-formed document, or could not be read.
    Reader(xml::reader::Error),
    /// The emitter refused an event, or the output could not be written.
    Writer(xml::writer::Error),
}

/// How a run ends.
pub enum Outcome {
    /// Every event was read and written.
    Done,
    /// The reader failed; what it had read before was written.
    ReadFailed,
    /// The emitter refused an event; nothing was written after that.
    WriteFailed,
}

/// The events that a reader hands out before it ends or fails.
pub open spec fn events_read(tokens: Seq<Option<ReaderEventView>>) -> Seq<ReaderEventView>
    decreases tokens.len(),
{
    if tokens.len() == 0 {
        Seq::empty()
    } else {
        match tokens.first() {
            Some(event) => seq![event] + events_read(tokens.drop_first()),
            None => Seq::empty(),
        }
    }
}

/// Whether a reader fails.
pub open spec fn read_fails(tokens: Seq<Option<ReaderEventView>>) -> bool {
    exists|i: int| 0 <= i < tokens.len() && tokens[i] is None
}

/// The events that go to the emitter for the document `input`: the
/// translations of the events read, in the order in which they were read.
pub open spec fn events_written(input: Seq<u8>) -> Seq<WriterEventView> {
    translated_all(events_read(xml_events(input)))
}

/// The bytes that a run on the document `input` writes.
pub open spec fn inverted_document(input: Seq<u8>) -> Seq<u8> {
    xml_document(events_written(input)).0
}

/// How a run on the document `input` ends. A failure of the emitter comes
/// before a failure of the reader: every event is written before the next is
/// read.
pub open spec fn outcome(input: Seq<u8>) -> Outcome {
    if !xml_document(events_written(input)).1 {
        Outcome::WriteFailed
    } else if read_fails(xml_events(input)) {
        Outcome::ReadFailed
    } else {
        Outcome::Done
    }
}

/// The outcome that a result reports.
pub open spec fn reported(result: Result<(), InvertSvgError>) -> Option<Outcome> {
    match result {
        Ok(_) => Some(Outcome::Done),
        Err(InvertSvgError::Reader(_)) => Some(Outcome::ReadFailed),
        Err(InvertSvgError::Writer(_)) => Some(Outcome::WriteFailed),
        Err(InvertSvgError::Io(_)) => None,
    }
}

/// The error of the first token that is one.
pub open spec fn first_error(tokens: Seq<Token>) -> Option<xml::reader::Error>
    decreases tokens.len(),
{
    if tokens.len() == 0 {
        None
    } else {
        match tokens.first() {
            Err(error) => Some(error),
            Ok(_) => first_error(tokens.drop_first()),
        }
    }
}

/// The events in the first `count` tokens, none of which is an error.
spec fn events_of(tokens: Seq<Option<ReaderEventView>>, count: int) -> Seq<
    ReaderEventView,
> {
    Seq::new(count as nat, |i: int| tokens[i]->0)
}

/// A reader that hands out `count` events and then ends or fails has read
/// those events; it fails if it did not end.
proof fn lemma_events_read(tokens: Seq<Option<ReaderEventView>>, count: int)
    requires
        0 <= count <= tokens.len(),
        forall|i: int| 0 <= i < count ==> tokens[i] is Some,
        count < tokens.len() ==> tokens[count] is None,
    ensures
        events_read(tokens) == events_of(tokens, count),
        read_fails(tokens) <==> count < tokens.len(),
    decreases count,
{
    if count == 0 {
        assert(events_read(tokens) =~= events_of(tokens, count));
    } else {
        let rest = tokens.drop_first();
        lemma_events_read(rest, count - 1);
        assert(events_read(tokens) =~= events_of(tokens, count));
    }
}

/// After `count` events, the first error is the next token, if there is one.
proof fn lemma_first_error(tokens: Seq<Token>, count: int)
    requires
        0 <= count <= tokens.len(),
        forall|i: int| 0 <= i < count ==> tokens[i] is Ok,
        count < tokens.len() ==> tokens[count] is Err,
    ensures
        first_error(tokens) == if count < tokens.len() {
            Some(tokens[count]->Err_0)
        } else {
            None
        },
    decreases count,
{
    if count > 0 {
        lemma_first_error(tokens.drop_first(), count - 1);
    }
}

/// What the lock around the cache guards: every entry holds the replacement
/// of its key. Whoever writes an entry writes that value, so two writers of
/// one key cannot disagree.
pub struct Memoizing;

impl RwLockPredicate<ColorCache> for Memoizing {
    open spec fn inv(self, cache: ColorCache) -> bool {
        memoizes(cache@)
    }
}

/// Inverts the colors of SVG documents.
///
/// An inverter remembers the replacement of every color literal it has met.
/// Its clones share that memory, so one inverter serves many documents, also
/// from several threads at once.
#[derive(Clone)]
pub struct InvertSvg {
    colors_cache: Arc<RwLock<ColorCache, Memoizing>>,
}

impl InvertSvg {
    /// An inverter that has met no color yet.
    pub fn new() -> (inverter: InvertSvg) {
        InvertSvg { colors_cache: Arc::new(RwLock::new(ColorCache::new(), Ghost(Memoizing))) }
    }

    /// The replacement of a color literal: its inversion, or the literal
    /// itself where it cannot be inverted.
    pub fn lookup_or_compute(&self, literal: &str) -> (shown: String)
        ensures
            shown@ == replacement(literal@),
    {
        let reading = self.colors_cache.acquire_read();
        let hit = reading.borrow().lookup(literal);
        reading.release_read();
        match hit {
            Some(shown) => shown,
            None => {
                let shown = compute_replacement(literal);
                let (mut cache, writing) = self.colors_cache.acquire_write();
                cache.store(literal, shown.clone());
                writing.release_write(cache);
                shown
            },
        }
    }

    /// Rewrites the attributes of an element: an attribute named `fill` or
    /// `stroke` gets the replacement of its value, every other attribute stays
    /// as it is. The attributes keep their number, names and order.
    pub fn invert_color_attributes(&self, attributes: Vec<Attribute>) -> (inverted_attributes: Vec<
        Attribute,
    >)
        ensures
            inverted_attributes.deep_view() == rewritten(attributes.deep_view()),
    {
        let mut inverted_attributes: Vec<Attribute> = Vec::with_capacity(attributes.len());
        for a in iter: attributes
            invariant
                iter.seq() == attributes@,
                inverted_attributes.len() == iter.index(),
                forall|i: int|
                    0 <= i < iter.index() ==> (#[trigger] inverted_attributes[i]).deep_view()
                        == rewritten_attribute(attributes[i].deep_view()),
        {
            if is_color_attribute(a.name.local_name.as_str()) {
                let inverted_color = self.lookup_or_compute(a.value.as_str());
                inverted_attributes.push(Attribute { name: a.name, value: inverted_color });
            } else {
                inverted_attributes.push(a);
            }
        }
        assert(inverted_attributes.deep_view() =~= rewritten(attributes.deep_view()));
        inverted_attributes
    }

    /// Translates one event: an opening tag has its attributes rewritten,
    /// white space and the end of the document are dropped, and every other
    /// event is carried over as it is.
    pub fn translate(&self, event: ReaderEvent) -> (writer_event: Option<WriterEvent>)
        ensures
            writer_event.deep_view() == translated(event.deep_view()),
    {
        match event {
            ReaderEvent::StartElement { name, attributes, namespace } => {
                let attributes_with_inverted_color = self.invert_color_attributes(attributes);
                Some(
                    WriterEvent::StartElement {
                        name,
                        attributes: attributes_with_inverted_color,
                        namespace,
                    },
                )
            },
            every_other_event => xml_reader_event_to_xml_writer_event(every_other_event),
        }
    }

    /// Translates what a reader handed out, up to its end or its first error:
    /// the events for the emitter, in the order in which they were read, and
    /// the error if there was one.
    pub fn translate_all(&self, tokens: Vec<Token>) -> (translation: (
        Vec<WriterEvent>,
        Option<xml::reader::Error>,
    ))
        ensures
            translation.0.deep_view() == translated_all(events_read(token_views(tokens@))),
            translation.1 == first_error(tokens@),
            translation.1 is Some <==> read_fails(token_views(tokens@)),
    {
        let ghost views = token_views(tokens@);
        let ghost mut count: int = 0;
        let mut events: Vec<WriterEvent> = Vec::new();
        let mut failure: Option<xml::reader::Error> = None;
        for token in iter: tokens
            invariant
                iter.seq() == tokens@,
                views == token_views(tokens@),
                0 <= count <= iter.index(),
                failure is None ==> count == iter.index(),
                failure is Some ==> count < iter.index() && tokens[count] == Err::<
                    ReaderEvent,
                    xml::reader::Error,
                >(failure->0),
                forall|i: int| 0 <= i < count ==> views[i] is Some,
                events.deep_view() == translated_all(events_of(views, count)),
        {
            if failure.is_none() {
                match token {
                    Ok(event) => {
                        proof {
                            assert(views[count] == Some(event.deep_view()));
                            assert(events_of(views, count + 1).drop_last() =~= events_of(
                                views,
                                count,
                            ));
                            count = count + 1;
                        }
                        let ghost before = events.deep_view();
                        match self.translate(event) {
                            Some(writer_event) => {
                                events.push(writer_event);
                                assert(events.deep_view() =~= before.push(
                                    writer_event.deep_view(),
                                ));
                            },
                            None => {},
                        }
                    },
                    Err(error) => {
                        failure = Some(error);
                    },
                }
            }
        }
        proof {
            lemma_events_read(views, count);
            assert forall|i: int| 0 <= i < count implies tokens[i] is Ok by {
                assert(views[i] is Some);
            }
            lemma_first_error(tokens@, count);
        }
        (events, failure)
    }

    /// Inverts the colors of the document in `reader` and appends the result
    /// to `writer`.
    ///
    /// The events of the document are translated one by one and written in the
    /// order in which they were read. The first failure ends the run: what was
    /// written before it stays in `writer`, and the error says which side
    /// failed.
    pub fn invert_svg(&self, reader: &[u8], writer: &mut Vec<u8>) -> (result: Result<
        (),
        InvertSvgError,
    >)
        ensures
            final(writer)@ == old(writer)@ + inverted_document(reader@),
            reported(result) == Some(outcome(reader@)),
    {
        let (events, failure) = self.translate_all(tokenize(reader));
        conclude(emit(&events, writer), failure)
    }
}

/// The result of a run, from how its two sides ended. A failure of the
/// emitter is reported before a failure of the reader.
pub fn conclude(written: Result<(), xml::writer::Error>, failure: Option<xml::reader::Error>) -> (result:
    Result<(), InvertSvgError>)
    ensures
        result == match (written, failure) {
            (Err(error), _) => Err::<(), InvertSvgError>(InvertSvgError::Writer(error)),
            (Ok(_), Some(error)) => Err(InvertSvgError::Reader(error)),
            (Ok(_), None) => Ok(()),
        },
{
    match written {
        Err(error) => Err(InvertSvgError::Writer(error)),
        Ok(_) => match failure {
            Some(error) => Err(InvertSvgError::Reader(error)),
            None => Ok(()),
        },
    }
}

/// Inverts the colors of the document in `reader` and appends the result to
/// `writer`, with an inverter made for this one run.
pub fn invert_svg(reader: &[u8], writer: &mut Vec<u8>) -> (result: Result<(), InvertSvgError>)
    ensures
        final(writer)@ == old(writer)@ + inverted_document(reader@),
        reported(result) == Some(outcome(reader@)),
{
    let invert_svg = InvertSvg::new();
    invert_svg.invert_svg(reader, writer)
}

} // verus!
