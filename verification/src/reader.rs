//! Reading a save file: the XML parser, and the walk over its events.

use vstd::prelude::*;
use std::io::Cursor;
use xml::name::OwnedName;
use xml::reader::{EventReader, Events, XmlEvent};
use crate::event::{Attribute, Event, EventView, Name};
use crate::extractor::Extractor;
use crate::model::summary_of;
use crate::progress::Summary;

verus! {

/// The iterator of `xml::reader` over the events of a document held in
/// memory. What it holds is known only as `pending_events` tells it.
#[verifier::external_body]
pub struct EventStream {
    inner: Events<Cursor<Vec<u8>>>,
}

/// The events that the iterator of `xml::reader::EventReader`, in its default
/// configuration, yields for a document, in order, until it ends: after the
/// end of the document, or after the first error. An opening tag stands with
/// its name and attributes, character data with its text, an error as
/// `Malformed`, and everything else as `Other`.
pub uninterp spec fn document_events(bytes: Seq<u8>) -> Seq<EventView>;

/// The events that a stream has yet to yield, in order.
pub uninterp spec fn pending_events(stream: EventStream) -> Seq<EventView>;

/// `EventReader::new` on the bytes of a document, then `into_iter`: a stream
/// that has the events of that document to yield.
#[verifier::external_body]
fn open_document(bytes: Vec<u8>) -> (stream: EventStream)
    ensures
        pending_events(stream) == document_events(bytes@),
{
    EventStream { inner: EventReader::new(Cursor::new(bytes)).into_iter() }
}

/// `Events::next`: hands out the first pending event and keeps the rest, or
/// hands out nothing once nothing is pending. An opening tag keeps the parts
/// of its name and its attributes, character data its text; what the parser
/// reports as an error comes out as `Event::Malformed`, every other event as
/// `Event::Other`.
#[verifier::external_body]
fn next_event(stream: &mut EventStream) -> (event: Option<Event>)
    ensures
        match event {
            Some(e) => pending_events(*old(stream)).len() > 0
                && e@ == pending_events(*old(stream))[0]
                && pending_events(*final(stream)) == pending_events(*old(stream)).skip(1),
            None => pending_events(*old(stream)).len() == 0
                && pending_events(*final(stream)) == pending_events(*old(stream)),
        },
{
    let plain = |n: OwnedName| Name { local_name: n.local_name, namespace: n.namespace, prefix: n.prefix };
    stream.inner.next().map(|item| match item {
        Ok(XmlEvent::StartElement { name, attributes, .. }) => Event::Start {
            name: plain(name),
            attributes: attributes.into_iter().map(|a| Attribute { name: plain(a.name), value: a.value }).collect(),
        },
        Ok(XmlEvent::EndElement { .. }) => Event::End,
        Ok(XmlEvent::Characters(text)) => Event::Text(text),
        Ok(_) => Event::Other,
        Err(_) => Event::Malformed,
    })
}

/// Why no summary could be made.
#[derive(Debug)]
pub enum Error {
    /// The file could not be opened or read.
    IoError(std::io::Error),
}

/// The failure of a read, as the operating system reports it.
#[verifier::external_type_specification]
#[verifier::external_body]
pub struct ExIoError(std::io::Error);

/// The summary of a save file, from the outcome of reading it: the bytes of
/// the file, or the failure of the read. A failed read is the one error;
/// whatever the bytes hold, they have a summary.
pub fn generate_summary(contents: Result<Vec<u8>, std::io::Error>) -> (result: Result<
    Summary,
    Error,
>)
    ensures
        match contents {
            Ok(bytes) => result matches Ok(summary) && summary@ == summary_of(
                document_events(bytes@),
            ),
            Err(failure) => result matches Err(Error::IoError(reported)) && reported == failure,
        },
{
    match contents {
        Ok(bytes) => Ok(summarize_document(bytes)),
        Err(failure) => Err(Error::IoError(failure)),
    }
}

/// The summary of the document that some bytes hold.
pub fn summarize_document(bytes: Vec<u8>) -> (summary: Summary)
    ensures
        summary@ == summary_of(document_events(bytes@)),
{
    let ghost all = document_events(bytes@);
    let mut stream = open_document(bytes);
    let mut extractor = Extractor::new();
    loop
        invariant_except_break
            extractor.wf(),
            extractor.seen() + pending_events(stream) == all,
        ensures
            extractor.wf(),
            extractor.seen() == all,
        decreases pending_events(stream).len(),
    {
        let ghost pending = pending_events(stream);
        match next_event(&mut stream) {
            None => {
                assert(extractor.seen() + pending =~= extractor.seen());
                break ;
            },
            Some(event) => {
                let ghost seen = extractor.seen();
                extractor.feed(&event);
                assert(seen.push(event@) + pending.skip(1) =~= seen + pending);
            },
        }
    }
    extractor.finish()
}

} // verus!
