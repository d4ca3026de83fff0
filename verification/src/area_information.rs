//! The schedule: events with a start time and a note, and how a schedule is
//! read from its JSON payload.

use vstd::prelude::*;
use crate::json::{decode, json_document, Json};
use crate::timestamp::{parse_rfc3339, rfc3339, Timestamp};

verus! {

/// One scheduled occurrence.
#[derive(Clone, Debug)]
pub struct Event {
    /// When the event begins.
    pub start: Timestamp,
    /// Free-form label; may be empty.
    pub note: String,
}

/// An event as contracts speak of it.
pub struct EventView {
    pub start: Timestamp,
    pub note: Seq<char>,
}

impl View for Event {
    type V = EventView;

    open spec fn view(&self) -> EventView {
        EventView { start: self.start, note: self.note@ }
    }
}

/// The events of one area, in the order in which they were received.
#[derive(Debug)]
pub struct AreaInformation {
    pub events: Vec<Event>,
}

impl View for AreaInformation {
    type V = Seq<EventView>;

    open spec fn view(&self) -> Seq<EventView> {
        Seq::new(self.events@.len(), |i: int| self.events@[i]@)
    }
}

/// Why a payload is no schedule.
#[derive(Clone, Copy, Debug, PartialEq, Eq, Structural)]
pub enum ParseError {
    /// The payload is not one JSON document.
    Malformed,
    /// The document is no object with an `events` array.
    MissingEvents,
    /// The event at `index` lacks a `start` text or a `note` text.
    InvalidEvent { index: usize },
    /// The `start` of the event at `index` is no RFC 3339 date-time.
    InvalidTimestamp { index: usize },
}

/// What is wrong with a single entry of the `events` array.
#[derive(Clone, Copy, Debug, PartialEq, Eq, Structural)]
pub enum EventFault {
    /// `start` or `note` is missing or is no text.
    Shape,
    /// `start` is a text, but no RFC 3339 date-time.
    Timestamp,
}

impl EventFault {
    /// The parse error for this fault in the entry at `index`.
    pub open spec fn at(self, index: int) -> ParseError {
        match self {
            EventFault::Shape => ParseError::InvalidEvent { index: index as usize },
            EventFault::Timestamp => ParseError::InvalidTimestamp { index: index as usize },
        }
    }
}

/// The text that a JSON value holds under `key`, where it is an object that
/// holds a string there.
pub open spec fn text_member(item: Json, key: Seq<char>) -> Option<Seq<char>> {
    match item.member_spec(key) {
        Some(m) => m.text_spec(),
        None => None,
    }
}

/// The event that one entry of the `events` array stands for. Members other
/// than `start` and `note` are ignored.
pub open spec fn read_event(item: Json) -> Result<EventView, EventFault> {
    match text_member(item, "start"@) {
        None => Err(EventFault::Shape),
        Some(start) => match rfc3339(start) {
            None => Err(EventFault::Timestamp),
            Some(at) => match text_member(item, "note"@) {
                None => Err(EventFault::Shape),
                Some(note) => Ok(EventView { start: at, note }),
            },
        },
    }
}

/// The events that the entries from position `from` on stand for, in order;
/// or the fault of the first of them that is no event.
pub open spec fn read_events_from(items: Seq<Json>, from: int) -> Result<Seq<EventView>, ParseError>
    decreases items.len() - from,
{
    if from < 0 || from >= items.len() {
        Ok(Seq::empty())
    } else {
        match read_event(items[from]) {
            Err(fault) => Err(fault.at(from)),
            Ok(event) => match read_events_from(items, from + 1) {
                Err(e) => Err(e),
                Ok(rest) => Ok(seq![event] + rest),
            },
        }
    }
}

/// The events that the entries stand for, in order; or the fault of the first
/// entry that is no event.
pub open spec fn read_events(items: Seq<Json>) -> Result<Seq<EventView>, ParseError> {
    read_events_from(items, 0)
}

/// Whether `k` is the position of the first entry that is no event.
pub open spec fn is_first_fault(items: Seq<Json>, k: int) -> bool {
    &&& 0 <= k < items.len()
    &&& read_event(items[k]) is Err
    &&& forall|j: int| 0 <= j < k ==> (#[trigger] read_event(items[j])) is Ok
}

/// The schedule that a JSON document holds: the entries of the array under
/// its `events` member.
pub open spec fn read_document(doc: Json) -> Result<Seq<EventView>, ParseError> {
    match doc.member_spec("events"@) {
        None => Err(ParseError::MissingEvents),
        Some(list) => match list.elements_spec() {
            None => Err(ParseError::MissingEvents),
            Some(items) => read_events(items),
        },
    }
}

/// The schedule that a payload holds.
pub open spec fn read_payload(payload: Seq<char>) -> Result<Seq<EventView>, ParseError> {
    match json_document(payload) {
        None => Err(ParseError::Malformed),
        Some(doc) => read_document(doc),
    }
}

/// Whether `r` is the executable form of `expected`.
pub open spec fn agrees(
    r: Result<AreaInformation, ParseError>,
    expected: Result<Seq<EventView>, ParseError>,
) -> bool {
    match r {
        Ok(area) => expected == Ok::<Seq<EventView>, ParseError>(area@),
        Err(e) => expected == Err::<Seq<EventView>, ParseError>(e),
    }
}

/// The text under `key` of a JSON value.
fn member_text<'a>(item: &'a Json, key: &str) -> (r: Option<&'a String>)
    ensures
        match r {
            Some(s) => text_member(*item, key@) == Some(s@),
            None => text_member(*item, key@) is None,
        },
{
    match item.member(&key.to_string()) {
        Some(m) => m.text(),
        None => None,
    }
}

impl Event {
    /// Reads one entry of the `events` array.
    pub fn from_entry(item: &Json) -> (r: Result<Event, EventFault>)
        ensures
            match r {
                Ok(event) => read_event(*item) == Ok::<EventView, EventFault>(event@),
                Err(fault) => read_event(*item) == Err::<EventView, EventFault>(fault),
            },
    {
        let start = match member_text(item, "start") {
            Some(s) => s,
            None => { return Err(EventFault::Shape); },
        };
        let at = match parse_rfc3339(start.as_str()) {
            Some(t) => t,
            None => { return Err(EventFault::Timestamp); },
        };
        let note = match member_text(item, "note") {
            Some(n) => n,
            None => { return Err(EventFault::Shape); },
        };
        Ok(Event { start: at, note: note.clone() })
    }
}

impl EventFault {
    /// The parse error for this fault in the entry at `index`.
    pub fn locate(self, index: usize) -> (e: ParseError)
        ensures
            e == self.at(index as int),
    {
        match self {
            EventFault::Shape => ParseError::InvalidEvent { index },
            EventFault::Timestamp => ParseError::InvalidTimestamp { index },
        }
    }
}

impl AreaInformation {
    /// Reads a schedule from its JSON payload: an object whose `events`
    /// member is an array of objects, each with a `start` date-time and a
    /// `note`. Any malformed entry fails the whole payload.
    pub fn new(json: &str) -> (r: Result<AreaInformation, ParseError>)
        ensures
            agrees(r, read_payload(json@)),
    {
        match decode(json) {
            Some(doc) => AreaInformation::from_document(&doc),
            None => Err(ParseError::Malformed),
        }
    }

    /// Reads a schedule from a parsed JSON document.
    pub fn from_document(doc: &Json) -> (r: Result<AreaInformation, ParseError>)
        ensures
            agrees(r, read_document(*doc)),
    {
        let list = match doc.member(&"events".to_string()) {
            Some(l) => l,
            None => { return Err(ParseError::MissingEvents); },
        };
        match list.elements() {
            Some(items) => AreaInformation::from_entries(items),
            None => Err(ParseError::MissingEvents),
        }
    }

    /// Reads a schedule from the entries of an `events` array.
    pub fn from_entries(items: &Vec<Json>) -> (r: Result<AreaInformation, ParseError>)
        ensures
            agrees(r, read_events(items@)),
    {
        let mut events: Vec<Event> = Vec::new();
        let mut i: usize = 0;
        let ghost mut done: Seq<EventView> = Seq::empty();
        while i < items.len()
            invariant
                0 <= i <= items.len(),
                events@.len() == i,
                done == Seq::new(events@.len(), |k: int| events@[k]@),
                read_events(items@) == match read_events_from(items@, i as int) {
                    Ok(rest) => Ok::<Seq<EventView>, ParseError>(done + rest),
                    Err(e) => Err(e),
                },
            decreases items.len() - i,
        {
            match Event::from_entry(&items[i]) {
                Ok(event) => {
                    proof {
                        let longer = done.push(event@);
                        match read_events_from(items@, i + 1) {
                            Ok(rest) => {
                                assert(done + (seq![event@] + rest) =~= longer + rest);
                            },
                            Err(_) => {},
                        }
                        done = longer;
                    }
                    events.push(event);
                    assert(done =~= Seq::new(events@.len(), |k: int| events@[k]@));
                },
                Err(fault) => {
                    return Err(fault.locate(i));
                },
            }
            i += 1;
        }
        let area = AreaInformation { events };
        proof {
            assert(done + Seq::<EventView>::empty() =~= done);
            assert(area@ =~= done);
        }
        Ok(area)
    }
}

/// What `read_events_from` yields: every event where each entry is one, else
/// the fault of the first entry that is none.
proof fn lemma_read_events_from(items: Seq<Json>, from: int)
    requires
        0 <= from <= items.len(),
    ensures
        match read_events_from(items, from) {
            Ok(events) => events.len() == items.len() - from && forall|j: int|
                from <= j < items.len() ==> (#[trigger] read_event(items[j]))
                    == Ok::<EventView, EventFault>(events[j - from]),
            Err(e) => exists|k: int|
                from <= k < items.len() && read_event(items[k]) is Err && e == read_event(
                    items[k],
                )->Err_0.at(k) && forall|j: int|
                    from <= j < k ==> (#[trigger] read_event(items[j])) is Ok,
        },
    decreases items.len() - from,
{
    if from < items.len() {
        lemma_read_events_from(items, from + 1);
        match read_event(items[from]) {
            Err(fault) => {
                assert(read_event(items[from]) is Err);
            },
            Ok(event) => match read_events_from(items, from + 1) {
                Ok(rest) => {
                    let events = seq![event] + rest;
                    assert forall|j: int| from <= j < items.len() implies (#[trigger] read_event(
                        items[j],
                    )) == Ok::<EventView, EventFault>(events[j - from]) by {
                        if j > from {
                            assert(events[j - from] == rest[j - from - 1]);
                        }
                    }
                },
                Err(e) => {
                    let k = choose|k: int|
                        from + 1 <= k < items.len() && read_event(items[k]) is Err && e
                            == read_event(items[k])->Err_0.at(k) && forall|j: int|
                            from + 1 <= j < k ==> (#[trigger] read_event(items[j])) is Ok;
                    assert forall|j: int| from <= j < k implies (#[trigger] read_event(
                        items[j],
                    )) is Ok by {}
                },
            },
        }
    }
}

/// A payload is read whole or not at all: where every entry is an event, the
/// schedule holds the event of each entry at the entry's position; where some
/// entry is none, the outcome is the fault of the first such entry, and no
/// schedule.
pub proof fn law_entries_are_read_whole(items: Seq<Json>)
    ensures
        match read_events(items) {
            Ok(events) => events.len() == items.len() && forall|j: int|
                0 <= j < items.len() ==> (#[trigger] read_event(items[j]))
                    == Ok::<EventView, EventFault>(events[j]),
            Err(e) => exists|k: int|
                is_first_fault(items, k) && e == read_event(items[k])->Err_0.at(k),
        },
{
    lemma_read_events_from(items, 0);
    match read_events(items) {
        Ok(_) => {},
        Err(e) => {
            let k = choose|k: int|
                0 <= k < items.len() && read_event(items[k]) is Err && e == read_event(
                    items[k],
                )->Err_0.at(k) && forall|j: int|
                    0 <= j < k ==> (#[trigger] read_event(items[j])) is Ok;
            assert(is_first_fault(items, k));
        },
    }
}

} // verus!
