use vstd::prelude::*;

verus! {

/// A key/value tag of an event, as a pair of character sequences.
pub type TagView = (Seq<char>, Seq<char>);

/// A key/value tag attached to a telemetry event.
pub struct TelemetryEventTag {
    pub key: String,
    pub value: String,
}

impl View for TelemetryEventTag {
    type V = TagView;

    open spec fn view(&self) -> TagView {
        (self.key@, self.value@)
    }
}

/// One telemetry event, as drained from the collector.
pub struct TelemetryEvent {
    pub process_id: i64,
    pub started: i64,
    pub finished: i64,
    pub data: String,
    pub success: Option<String>,
    pub fail: Option<String>,
    pub ip: Option<String>,
    pub tags: Option<Vec<TelemetryEventTag>>,
}

/// What an event holds, with every string as its characters.
pub struct EventView {
    pub process_id: i64,
    pub started: i64,
    pub finished: i64,
    pub data: Seq<char>,
    pub success: Option<Seq<char>>,
    pub fail: Option<Seq<char>>,
    pub ip: Option<Seq<char>>,
    pub tags: Option<Seq<TagView>>,
}

pub open spec fn opt_str_view(o: Option<String>) -> Option<Seq<char>> {
    match o {
        Some(s) => Some(s@),
        None => None,
    }
}

pub open spec fn tags_view(tags: Seq<TelemetryEventTag>) -> Seq<TagView> {
    Seq::new(tags.len(), |i: int| tags[i]@)
}

impl View for TelemetryEvent {
    type V = EventView;

    open spec fn view(&self) -> EventView {
        EventView {
            process_id: self.process_id,
            started: self.started,
            finished: self.finished,
            data: self.data@,
            success: opt_str_view(self.success),
            fail: opt_str_view(self.fail),
            ip: opt_str_view(self.ip),
            tags: match self.tags {
                Some(t) => Some(tags_view(t@)),
                None => None,
            },
        }
    }
}

/// The views of a batch of events, in order.
pub open spec fn batch_view(events: Seq<TelemetryEvent>) -> Seq<EventView> {
    Seq::new(events.len(), |i: int| events[i]@)
}

pub fn clone_opt_string(o: &Option<String>) -> (r: Option<String>)
    ensures
        opt_str_view(r) == opt_str_view(*o),
{
    match o {
        Some(s) => Some(s.clone()),
        None => None,
    }
}

} // verus!
