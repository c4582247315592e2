//! The walk over a document's events, one event at a time.

use vstd::prelude::*;
use crate::event::{attribute_views, event_views, Attribute, Event, EventView, Name};
use crate::fields::{apply_text, last_attribute, read_side, store};
use crate::model::{mode_blocks, open_run, summary_of};
use crate::progress::{AreaData, AreaMode, Summary};
use crate::steps::{lemma_agreement, lemma_start_agrees, lemma_step_agrees, Walk};
use crate::text::same_text;

verus! {

/// The state of a walk: what the events seen so far amount to.
pub struct Extractor {
    summary: Summary,
    strawberries_read: bool,
    element: String,
    area: String,
    filled: u8,
    first: AreaData,
    second: AreaData,
    seen: Ghost<Seq<EventView>>,
}

impl Extractor {
    /// The events fed so far, in order.
    pub closed spec fn seen(&self) -> Seq<EventView> {
        self.seen@
    }

    /// The state, as mathematical values.
    pub closed spec fn walk(&self) -> Walk {
        Walk {
            summary: self.summary@,
            strawberries_read: self.strawberries_read,
            element: self.element@,
            area: self.area@,
            filled: self.filled as int,
            first: self.first,
            second: self.second,
        }
    }

    /// The state agrees with the events fed so far.
    pub closed spec fn wf(&self) -> bool {
        self.walk().agrees(self.seen@)
    }

    /// A walk that has seen nothing yet.
    pub fn new() -> (extractor: Extractor)
        ensures
            extractor.wf(),
            extractor.seen() == Seq::<EventView>::empty(),
    {
        proof {
            lemma_start_agrees();
        }
        Extractor {
            summary: Summary::default(),
            strawberries_read: false,
            element: String::new(),
            area: String::new(),
            filled: 0,
            first: AreaData::default(),
            second: AreaData::default(),
            seen: Ghost(Seq::empty()),
        }
    }

    /// The run of mode blocks under assembly: the blocks since the last
    /// complete run of three, each in the slot of its position.
    pub fn pending(&self) -> (run: AreaMode)
        requires
            self.wf(),
        ensures
            run == open_run(mode_blocks(self.seen())),
    {
        proof {
            lemma_agreement(self.walk(), self.seen@);
        }
        AreaMode { a_side: self.first, b_side: self.second, c_side: AreaData::default() }
    }

    /// Takes one more mode block.
    fn take_block(&mut self, side: AreaData)
        requires
            old(self).filled < 3,
        ensures
            final(self).walk() == old(self).walk().with_block(side),
            final(self).seen == old(self).seen,
    {
        if self.filled == 0 {
            self.first = side;
            self.filled = 1;
        } else if self.filled == 1 {
            self.second = side;
            self.filled = 2;
        } else {
            let run = AreaMode { a_side: self.first, b_side: self.second, c_side: side };
            store(&mut self.summary.celeste, self.area.as_str(), run);
            self.first = AreaData::default();
            self.second = AreaData::default();
            self.filled = 0;
        }
    }

    /// Takes an opening tag.
    fn open_element(&mut self, name: &Name, attributes: &Vec<Attribute>)
        requires
            old(self).filled < 3,
        ensures
            final(self).walk() == old(self).walk().opened(name@, attribute_views(attributes@)),
            final(self).seen == old(self).seen,
    {
        self.element = name.text();
        if same_text(self.element.as_str(), "AreaStats") {
            match last_attribute(attributes, "SID") {
                Some(area) => {
                    self.area = area.to_owned();
                },
                None => {},
            }
        } else if same_text(self.element.as_str(), "AreaModeStats") {
            self.take_block(read_side(attributes));
        }
    }

    /// Takes character data.
    fn read_text(&mut self, text: &String)
        ensures
            final(self).walk() == old(self).walk().read(text@),
            final(self).seen == old(self).seen,
    {
        self.strawberries_read = apply_text(
            &mut self.summary,
            self.element.as_str(),
            text,
            self.strawberries_read,
        );
    }

    /// Takes the next event of the document.
    pub fn feed(&mut self, event: &Event)
        requires
            old(self).wf(),
        ensures
            final(self).wf(),
            final(self).seen() == old(self).seen().push(event@),
    {
        proof {
            lemma_agreement(self.walk(), self.seen@);
            lemma_step_agrees(self.walk(), self.seen@, event@);
        }
        match event {
            Event::Start { name, attributes } => self.open_element(name, attributes),
            Event::End => {
                self.element = String::new();
            },
            Event::Text(text) => self.read_text(text),
            Event::Other => {},
            Event::Malformed => {},
        }
        self.seen = Ghost(self.seen@.push(event@));
    }

    /// Ends the walk and hands out the summary of what was seen.
    pub fn finish(self) -> (summary: Summary)
        requires
            self.wf(),
        ensures
            summary@ == summary_of(self.seen()),
    {
        proof {
            lemma_agreement(self.walk(), self.seen@);
        }
        self.summary
    }
}

/// The summary of a document with these events.
pub fn summarize(events: &Vec<Event>) -> (summary: Summary)
    ensures
        summary@ == summary_of(event_views(events@)),
{
    let mut extractor = Extractor::new();
    let mut i: usize = 0;
    while i < events.len()
        invariant
            i <= events.len(),
            extractor.wf(),
            extractor.seen() == event_views(events@).take(i as int),
        decreases events.len() - i,
    {
        extractor.feed(&events[i]);
        assert(event_views(events@).take(i + 1) =~= event_views(events@).take(i as int).push(
            events[i as int]@,
        ));
        i += 1;
    }
    assert(event_views(events@).take(i as int) =~= event_views(events@));
    extractor.finish()
}

} // verus!
