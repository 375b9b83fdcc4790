use vstd::prelude::*;
use crate::event::{
    batch_view, clone_opt_string, opt_str_view, tags_view, EventView, TagView, TelemetryEvent,
    TelemetryEventTag,
};

verus! {

/// Path segments appended to the endpoint address for an HTTP batch.
pub const HTTP_API_SEGMENT: &'static str = "api";

pub const HTTP_ADD_SEGMENT: &'static str = "add";

/// Whether an HTTP status counts as an accepted batch: any status of the
/// success class (2xx); any other fails the delivery.
pub fn is_success_status(status: u16) -> (r: bool)
    ensures
        r == (200 <= status && status <= 299),
{
    200 <= status && status <= 299
}

/// A key/value tag of the HTTP record.
pub struct TelemetryHttpTag {
    pub key: String,
    pub value: String,
}

impl View for TelemetryHttpTag {
    type V = TagView;

    open spec fn view(&self) -> TagView {
        (self.key@, self.value@)
    }
}

/// One element of the JSON array posted to the HTTP endpoint.
pub struct TelemetryHttpModel {
    pub process_id: i64,
    pub started: i64,
    pub ended: i64,
    pub service_name: String,
    pub event_data: String,
    pub success: Option<String>,
    pub fail: Option<String>,
    pub ip: Option<String>,
    pub tags: Option<Vec<TelemetryHttpTag>>,
}

pub struct HttpModelView {
    pub process_id: i64,
    pub started: i64,
    pub ended: i64,
    pub service_name: Seq<char>,
    pub event_data: Seq<char>,
    pub success: Option<Seq<char>>,
    pub fail: Option<Seq<char>>,
    pub ip: Option<Seq<char>>,
    pub tags: Option<Seq<TagView>>,
}

pub open spec fn http_tags_view(tags: Seq<TelemetryHttpTag>) -> Seq<TagView> {
    Seq::new(tags.len(), |i: int| tags[i]@)
}

impl View for TelemetryHttpModel {
    type V = HttpModelView;

    open spec fn view(&self) -> HttpModelView {
        HttpModelView {
            process_id: self.process_id,
            started: self.started,
            ended: self.ended,
            service_name: self.service_name@,
            event_data: self.event_data@,
            success: opt_str_view(self.success),
            fail: opt_str_view(self.fail),
            ip: opt_str_view(self.ip),
            tags: match self.tags {
                Some(t) => Some(http_tags_view(t@)),
                None => None,
            },
        }
    }
}

/// The HTTP record of an event sent on behalf of `service`.
pub open spec fn http_record_of(e: EventView, service: Seq<char>) -> HttpModelView {
    HttpModelView {
        process_id: e.process_id,
        started: e.started,
        ended: e.finished,
        service_name: service,
        event_data: e.data,
        success: e.success,
        fail: e.fail,
        ip: e.ip,
        tags: e.tags,
    }
}

/// The event that an HTTP record describes.
pub open spec fn event_of_http_record(r: HttpModelView) -> EventView {
    EventView {
        process_id: r.process_id,
        started: r.started,
        finished: r.ended,
        data: r.event_data,
        success: r.success,
        fail: r.fail,
        ip: r.ip,
        tags: r.tags,
    }
}

/// The HTTP records of a batch, in the batch's order.
pub open spec fn http_batch_of(events: Seq<EventView>, service: Seq<char>) -> Seq<HttpModelView> {
    Seq::new(events.len(), |i: int| http_record_of(events[i], service))
}

pub open spec fn http_batch_view(records: Seq<TelemetryHttpModel>) -> Seq<HttpModelView> {
    Seq::new(records.len(), |i: int| records[i]@)
}

fn http_tags(tags: &Vec<TelemetryEventTag>) -> (r: Vec<TelemetryHttpTag>)
    ensures
        http_tags_view(r@) == tags_view(tags@),
{
    let mut out: Vec<TelemetryHttpTag> = Vec::with_capacity(tags.len());
    let mut i: usize = 0;
    while i < tags.len()
        invariant
            i <= tags@.len(),
            out@.len() == i,
            forall|j: int| 0 <= j < i ==> (#[trigger] out@[j])@ == tags@[j]@,
        decreases tags@.len() - i,
    {
        let tag = &tags[i];
        out.push(TelemetryHttpTag { key: tag.key.clone(), value: tag.value.clone() });
        i = i + 1;
    }
    assert(http_tags_view(out@) =~= tags_view(tags@));
    out
}

/// The HTTP record of one event.
pub fn http_record(app_name: &str, item: &TelemetryEvent) -> (r: TelemetryHttpModel)
    ensures
        r@ == http_record_of(item@, app_name@),
{
    let tags = match &item.tags {
        Some(t) => Some(http_tags(t)),
        None => None,
    };
    TelemetryHttpModel {
        process_id: item.process_id,
        started: item.started,
        ended: item.finished,
        service_name: app_name.to_string(),
        event_data: item.data.clone(),
        success: clone_opt_string(&item.success),
        fail: clone_opt_string(&item.fail),
        ip: clone_opt_string(&item.ip),
        tags,
    }
}

/// Turns a drained batch into the records of the HTTP body, one for each
/// event, in the same order.
pub fn http_records(app_name: &str, to_write: &Vec<TelemetryEvent>) -> (r: Vec<TelemetryHttpModel>)
    ensures
        http_batch_view(r@) == http_batch_of(batch_view(to_write@), app_name@),
{
    let mut out: Vec<TelemetryHttpModel> = Vec::with_capacity(to_write.len());
    let mut i: usize = 0;
    while i < to_write.len()
        invariant
            i <= to_write@.len(),
            out@.len() == i,
            forall|j: int|
                0 <= j < i ==> (#[trigger] out@[j])@ == http_record_of(to_write@[j]@, app_name@),
        decreases to_write@.len() - i,
    {
        out.push(http_record(app_name, &to_write[i]));
        i = i + 1;
    }
    assert(http_batch_view(out@) =~= http_batch_of(batch_view(to_write@), app_name@));
    out
}

/// Every event of a batch can be read back, unchanged and in its place, from
/// the HTTP records of the batch, and every record names the sending service.
pub proof fn lemma_http_batch_round_trip(events: Seq<EventView>, service: Seq<char>)
    ensures
        http_batch_of(events, service).len() == events.len(),
        forall|i: int|
            0 <= i < events.len() ==> event_of_http_record(
                #[trigger] http_batch_of(events, service)[i],
            ) == events[i] && http_batch_of(events, service)[i].service_name == service,
{
}

} // verus!
