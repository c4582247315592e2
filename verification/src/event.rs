//! The structural events of a document, as the extractor reads them.

use vstd::prelude::*;
use vstd::string::*;
use crate::text::same_text;

verus! {

/// The name of an element or of an attribute, in the parts that the parser
/// tells apart.
#[derive(Debug, Clone, PartialEq, Eq)]
pub struct Name {
    /// The name without its prefix, such as `string` in `xsi:string`.
    pub local_name: String,
    /// The URI of the namespace that the name stands in, if it stands in one.
    pub namespace: Option<String>,
    /// The prefix, such as `xsi` in `xsi:string`, if the name has one.
    pub prefix: Option<String>,
}

/// The characters of a text that may be missing.
pub open spec fn characters(text: Option<String>) -> Option<Seq<char>> {
    match text {
        Some(text) => Some(text@),
        None => None,
    }
}

/// A name written out: the namespace in braces, where there is one; the
/// prefix and a colon, where there is one; then the local name.
pub open spec fn qualified(
    local_name: Seq<char>,
    namespace: Option<Seq<char>>,
    prefix: Option<Seq<char>>,
) -> Seq<char> {
    let braced = match namespace {
        Some(namespace) => seq!['{'] + namespace + seq!['}'],
        None => Seq::empty(),
    };
    let prefixed = match prefix {
        Some(prefix) => prefix + seq![':'],
        None => Seq::empty(),
    };
    braced + prefixed + local_name
}

impl View for Name {
    type V = Seq<char>;

    /// The name written out. Names are told apart by this text alone.
    open spec fn view(&self) -> Seq<char> {
        qualified(self.local_name@, characters(self.namespace), characters(self.prefix))
    }
}

impl Name {
    /// A name without a namespace and without a prefix.
    pub fn local(local_name: &str) -> (name: Name)
        ensures
            name@ == local_name@,
            name.local_name@ == local_name@,
            name.namespace is None,
            name.prefix is None,
    {
        let name = Name { local_name: local_name.to_owned(), namespace: None, prefix: None };
        assert(name@ =~= local_name@);
        name
    }

    /// The name written out.
    pub fn text(&self) -> (text: String)
        ensures
            text@ == self@,
    {
        let mut text = String::new();
        proof {
            reveal_strlit("{");
            reveal_strlit("}");
            reveal_strlit(":");
            assert("{"@ =~= seq!['{']);
            assert("}"@ =~= seq!['}']);
            assert(":"@ =~= seq![':']);
        }
        match &self.namespace {
            Some(namespace) => {
                text.append("{");
                text.append(namespace.as_str());
                text.append("}");
            },
            None => {},
        }
        match &self.prefix {
            Some(prefix) => {
                text.append(prefix.as_str());
                text.append(":");
            },
            None => {},
        }
        text.append(self.local_name.as_str());
        assert(text@ =~= self@);
        text
    }

    /// Whether the name, written out, reads `text`.
    pub fn reads(&self, text: &str) -> (same: bool)
        ensures
            same == (self@ == text@),
    {
        if self.namespace.is_none() && self.prefix.is_none() {
            assert(self@ =~= self.local_name@);
            same_text(self.local_name.as_str(), text)
        } else {
            let written = self.text();
            same_text(written.as_str(), text)
        }
    }
}

/// One attribute of an opening tag.
#[derive(Debug, Clone, PartialEq, Eq)]
pub struct Attribute {
    pub name: Name,
    /// The value, with its entities resolved.
    pub value: String,
}

/// What an [`Attribute`] holds: its name written out, and its value.
pub struct AttributeView {
    pub name: Seq<char>,
    pub value: Seq<char>,
}

impl View for Attribute {
    type V = AttributeView;

    open spec fn view(&self) -> AttributeView {
        AttributeView { name: self.name@, value: self.value@ }
    }
}

/// One step of a walk through a document.
#[derive(Debug, Clone, PartialEq, Eq)]
pub enum Event {
    /// An element was opened.
    Start { name: Name, attributes: Vec<Attribute> },
    /// An element was closed.
    End,
    /// Character data between tags.
    Text(String),
    /// Anything else that is well formed: the prolog, whitespace, comments,
    /// processing instructions, CDATA sections, the end of the document.
    Other,
    /// A stretch of input that the parser could not make sense of.
    Malformed,
}

/// What an [`Event`] holds, with each name written out.
pub enum EventView {
    Start { name: Seq<char>, attributes: Seq<AttributeView> },
    End,
    Text(Seq<char>),
    Other,
    Malformed,
}

/// The views of a list of attributes, in order.
pub open spec fn attribute_views(attributes: Seq<Attribute>) -> Seq<AttributeView> {
    Seq::new(attributes.len(), |i: int| attributes[i]@)
}

impl View for Event {
    type V = EventView;

    open spec fn view(&self) -> EventView {
        match *self {
            Event::Start { name, attributes } => EventView::Start {
                name: name@,
                attributes: attribute_views(attributes@),
            },
            Event::End => EventView::End,
            Event::Text(text) => EventView::Text(text@),
            Event::Other => EventView::Other,
            Event::Malformed => EventView::Malformed,
        }
    }
}

/// The views of a list of events, in order.
pub open spec fn event_views(events: Seq<Event>) -> Seq<EventView> {
    Seq::new(events.len(), |i: int| events[i]@)
}

} // verus!
