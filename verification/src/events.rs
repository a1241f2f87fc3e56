//! The events of a document.
//!
//! A document is read as a sequence of reader events and written as a sequence
//! of writer events. Both are plain data here: strings, options and vectors.
//! Each type has a view in which every string stands as its characters;
//! contracts speak of those views.

use vstd::prelude::*;

verus! {

/// The version in a document declaration.
#[derive(Clone, Copy, Debug, PartialEq, Eq, Structural)]
pub enum Version {
    /// XML 1.0.
    Version10,
    /// XML 1.1.
    Version11,
}

/// A qualified name: a local name, with or without a namespace URI and a
/// prefix.
#[derive(Clone, Debug, PartialEq, Eq)]
pub struct QName {
    pub local_name: String,
    pub namespace: Option<String>,
    pub prefix: Option<String>,
}

/// An attribute of an element: a qualified name and a value.
#[derive(Clone, Debug, PartialEq, Eq)]
pub struct Attribute {
    pub name: QName,
    pub value: String,
}

/// What the tokenizer hands out.
#[derive(Clone, Debug, PartialEq, Eq)]
#[allow(inconsistent_fields)]
pub enum ReaderEvent {
    /// The document declaration, present in the input or not.
    StartDocument { version: Version, encoding: String, standalone: Option<bool> },
    /// The end of the input.
    EndDocument,
    /// A processing instruction.
    ProcessingInstruction { name: String, data: Option<String> },
    /// An opening tag, with the namespace bindings in force at it, each a
    /// prefix and a URI.
    StartElement { name: QName, attributes: Vec<Attribute>, namespace: Vec<(String, String)> },
    /// A closing tag.
    EndElement { name: QName },
    /// A CDATA section.
    CData(String),
    /// A comment.
    Comment(String),
    /// Character data.
    Characters(String),
    /// Character data that is white space only.
    Whitespace(String),
}

/// What the emitter takes.
#[derive(Clone, Debug, PartialEq, Eq)]
#[allow(inconsistent_fields)]
pub enum WriterEvent {
    /// The document declaration.
    StartDocument { version: Version, encoding: Option<String>, standalone: Option<bool> },
    /// A processing instruction.
    ProcessingInstruction { name: String, data: Option<String> },
    /// An opening tag, with the namespace bindings in force at it.
    StartElement { name: QName, attributes: Vec<Attribute>, namespace: Vec<(String, String)> },
    /// A closing tag. Without a name, the emitter closes the element that is
    /// open.
    EndElement { name: Option<QName> },
    /// A CDATA section.
    CData(String),
    /// A comment.
    Comment(String),
    /// Character data.
    Characters(String),
}

/// The view of a `QName`.
pub struct QNameView {
    pub local_name: Seq<char>,
    pub namespace: Option<Seq<char>>,
    pub prefix: Option<Seq<char>>,
}

/// The view of an `Attribute`.
pub struct AttributeView {
    pub name: QNameView,
    pub value: Seq<char>,
}

/// The view of a `ReaderEvent`.
#[allow(inconsistent_fields)]
pub enum ReaderEventView {
    StartDocument { version: Version, encoding: Seq<char>, standalone: Option<bool> },
    EndDocument,
    ProcessingInstruction { name: Seq<char>, data: Option<Seq<char>> },
    StartElement {
        name: QNameView,
        attributes: Seq<AttributeView>,
        namespace: Seq<(Seq<char>, Seq<char>)>,
    },
    EndElement { name: QNameView },
    CData(Seq<char>),
    Comment(Seq<char>),
    Characters(Seq<char>),
    Whitespace(Seq<char>),
}

/// The view of a `WriterEvent`.
#[allow(inconsistent_fields)]
pub enum WriterEventView {
    StartDocument { version: Version, encoding: Option<Seq<char>>, standalone: Option<bool> },
    ProcessingInstruction { name: Seq<char>, data: Option<Seq<char>> },
    StartElement {
        name: QNameView,
        attributes: Seq<AttributeView>,
        namespace: Seq<(Seq<char>, Seq<char>)>,
    },
    EndElement { name: Option<QNameView> },
    CData(Seq<char>),
    Comment(Seq<char>),
    Characters(Seq<char>),
}

impl DeepView for Version {
    type V = Version;

    open spec fn deep_view(&self) -> Version {
        *self
    }
}

impl DeepView for QName {
    type V = QNameView;

    open spec fn deep_view(&self) -> QNameView {
        QNameView {
            local_name: self.local_name@,
            namespace: self.namespace.deep_view(),
            prefix: self.prefix.deep_view(),
        }
    }
}

impl DeepView for Attribute {
    type V = AttributeView;

    open spec fn deep_view(&self) -> AttributeView {
        AttributeView { name: self.name.deep_view(), value: self.value@ }
    }
}

impl DeepView for ReaderEvent {
    type V = ReaderEventView;

    open spec fn deep_view(&self) -> ReaderEventView {
        match *self {
            ReaderEvent::StartDocument { version, encoding, standalone } => {
                ReaderEventView::StartDocument { version, encoding: encoding@, standalone }
            },
            ReaderEvent::EndDocument => ReaderEventView::EndDocument,
            ReaderEvent::ProcessingInstruction { name, data } => {
                ReaderEventView::ProcessingInstruction { name: name@, data: data.deep_view() }
            },
            ReaderEvent::StartElement { name, attributes, namespace } => {
                ReaderEventView::StartElement {
                    name: name.deep_view(),
                    attributes: attributes.deep_view(),
                    namespace: namespace.deep_view(),
                }
            },
            ReaderEvent::EndElement { name } => ReaderEventView::EndElement {
                name: name.deep_view(),
            },
            ReaderEvent::CData(text) => ReaderEventView::CData(text@),
            ReaderEvent::Comment(text) => ReaderEventView::Comment(text@),
            ReaderEvent::Characters(text) => ReaderEventView::Characters(text@),
            ReaderEvent::Whitespace(text) => ReaderEventView::Whitespace(text@),
        }
    }
}

impl DeepView for WriterEvent {
    type V = WriterEventView;

    open spec fn deep_view(&self) -> WriterEventView {
        match *self {
            WriterEvent::StartDocument { version, encoding, standalone } => {
                WriterEventView::StartDocument {
                    version,
                    encoding: encoding.deep_view(),
                    standalone,
                }
            },
            WriterEvent::ProcessingInstruction { name, data } => {
                WriterEventView::ProcessingInstruction { name: name@, data: data.deep_view() }
            },
            WriterEvent::StartElement { name, attributes, namespace } => {
                WriterEventView::StartElement {
                    name: name.deep_view(),
                    attributes: attributes.deep_view(),
                    namespace: namespace.deep_view(),
                }
            },
            WriterEvent::EndElement { name } => WriterEventView::EndElement {
                name: name.deep_view(),
            },
            WriterEvent::CData(text) => WriterEventView::CData(text@),
            WriterEvent::Comment(text) => WriterEventView::Comment(text@),
            WriterEvent::Characters(text) => WriterEventView::Characters(text@),
        }
    }
}

} // verus!
