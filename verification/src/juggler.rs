//! The alerting sink's vocabulary: statuses, verdicts, events and the
//! payload that carries them.

use vstd::prelude::*;
use vstd::string::*;

verus! {

/// The three levels of health that the sink understands.
#[allow(non_camel_case_types)]
#[derive(Debug, Clone, Copy, PartialEq, Eq, Structural)]
pub enum Status {
    OK,
    WARN,
    CRIT,
}

impl Status {
    /// The status as the sink spells it.
    pub open spec fn wire_name(self) -> Seq<char> {
        match self {
            Status::OK => "OK"@,
            Status::WARN => "WARN"@,
            Status::CRIT => "CRIT"@,
        }
    }

    /// The status as the sink spells it.
    pub fn as_str(&self) -> (name: &'static str)
        ensures
            name@ == self.wire_name(),
    {
        match self {
            Status::OK => "OK",
            Status::WARN => "WARN",
            Status::CRIT => "CRIT",
        }
    }
}

/// A health judgment: a level and the words that explain it.
#[derive(Debug, Clone, PartialEq, Eq)]
pub struct Verdict {
    pub status: Status,
    pub description: String,
}

/// What a `Verdict` holds.
pub struct VerdictView {
    pub status: Status,
    pub description: Seq<char>,
}

impl View for Verdict {
    type V = VerdictView;

    open spec fn view(&self) -> VerdictView {
        VerdictView { status: self.status, description: self.description@ }
    }
}

/// The unit that the sink takes: one judgment about one subject.
#[derive(Debug, Clone, PartialEq, Eq)]
pub struct Event {
    pub host: String,
    pub service: String,
    pub instance: String,
    pub status: Status,
    pub description: String,
    pub tags: Vec<String>,
}

/// What an `Event` holds.
pub struct EventView {
    pub host: Seq<char>,
    pub service: Seq<char>,
    pub instance: Seq<char>,
    pub status: Status,
    pub description: Seq<char>,
    pub tags: Seq<Seq<char>>,
}

impl View for Event {
    type V = EventView;

    open spec fn view(&self) -> EventView {
        EventView {
            host: self.host@,
            service: self.service@,
            instance: self.instance@,
            status: self.status,
            description: self.description@,
            tags: self.tags.deep_view(),
        }
    }
}

impl DeepView for Event {
    type V = EventView;

    open spec fn deep_view(&self) -> EventView {
        self@
    }
}

/// What one run sends to the sink: who speaks, and the events in order.
#[derive(Debug, Clone, PartialEq, Eq)]
pub struct Payload {
    pub source: String,
    pub events: Vec<Event>,
}

/// What a `Payload` holds.
pub struct PayloadView {
    pub source: Seq<char>,
    pub events: Seq<EventView>,
}

impl View for Payload {
    type V = PayloadView;

    open spec fn view(&self) -> PayloadView {
        PayloadView { source: self.source@, events: self.events.deep_view() }
    }
}

impl Payload {
    /// The payload of one run of the monitor called `source`.
    pub fn new(source: &str, events: Vec<Event>) -> (payload: Payload)
        ensures
            payload@ == (PayloadView { source: source@, events: events.deep_view() }),
    {
        Payload { source: String::from_str(source), events }
    }
}

/// The address that events are posted to: the sink's base address followed
/// by `/events`.
pub open spec fn events_url(base: Seq<char>) -> Seq<char> {
    base + "/events"@
}

/// The address that events are posted to.
pub fn jugglerify(fqdn: String) -> (url: String)
    ensures
        url@ == events_url(fqdn@),
{
    fqdn.concat("/events")
}

} // verus!
