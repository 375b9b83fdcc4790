use vstd::prelude::*;
use crate::event::{
    batch_view, clone_opt_string, opt_str_view, tags_view, EventView, TagView, TelemetryEvent,
    TelemetryEventTag,
};

verus! {

/// Every RPC call (connect, ping, upload) is bounded by this many seconds.
pub const RPC_TIMEOUT_SECS: u64 = 3;

/// A key/value tag of the RPC record.
pub struct EventGrpcTag {
    pub key: String,
    pub value: String,
}

impl View for EventGrpcTag {
    type V = TagView;

    open spec fn view(&self) -> TagView {
        (self.key@, self.value@)
    }
}

/// One record of the RPC upload stream.
pub struct TelemetryGrpcEvent {
    pub process_id: i64,
    pub started_at: i64,
    pub finished_at: i64,
    pub service_name: String,
    pub event_data: String,
    pub success: Option<String>,
    pub fail: Option<String>,
    pub tags: Vec<EventGrpcTag>,
}

pub struct GrpcEventView {
    pub process_id: i64,
    pub started_at: i64,
    pub finished_at: i64,
    pub service_name: Seq<char>,
    pub event_data: Seq<char>,
    pub success: Option<Seq<char>>,
    pub fail: Option<Seq<char>>,
    pub tags: Seq<TagView>,
}

pub open spec fn grpc_tags_view(tags: Seq<EventGrpcTag>) -> Seq<TagView> {
    Seq::new(tags.len(), |i: int| tags[i]@)
}

impl View for TelemetryGrpcEvent {
    type V = GrpcEventView;

    open spec fn view(&self) -> GrpcEventView {
        GrpcEventView {
            process_id: self.process_id,
            started_at: self.started_at,
            finished_at: self.finished_at,
            service_name: self.service_name@,
            event_data: self.event_data@,
            success: opt_str_view(self.success),
            fail: opt_str_view(self.fail),
            tags: grpc_tags_view(self.tags@),
        }
    }
}

/// The RPC record of an event sent on behalf of `service`. The wire schema
/// has no origin address, and an event without tags gets an empty tag list.
pub open spec fn grpc_record_of(e: EventView, service: Seq<char>) -> GrpcEventView {
    GrpcEventView {
        process_id: e.process_id,
        started_at: e.started,
        finished_at: e.finished,
        service_name: service,
        event_data: e.data,
        success: e.success,
        fail: e.fail,
        tags: match e.tags {
            Some(t) => t,
            None => Seq::empty(),
        },
    }
}

/// The event that an RPC record describes; an empty tag list reads as no
/// tags.
pub open spec fn event_of_grpc_record(r: GrpcEventView) -> EventView {
    EventView {
        process_id: r.process_id,
        started: r.started_at,
        finished: r.finished_at,
        data: r.event_data,
        success: r.success,
        fail: r.fail,
        ip: None,
        tags: if r.tags.len() == 0 {
            None
        } else {
            Some(r.tags)
        },
    }
}

/// The events that the RPC schema carries unchanged: no origin address, and
/// no tag list that is present but empty.
pub open spec fn fits_grpc_schema(e: EventView) -> bool {
    &&& e.ip is None
    &&& e.tags matches Some(t) ==> t.len() > 0
}

/// The RPC records of a batch, in the batch's order.
pub open spec fn grpc_batch_of(events: Seq<EventView>, service: Seq<char>) -> Seq<GrpcEventView> {
    Seq::new(events.len(), |i: int| grpc_record_of(events[i], service))
}

pub open spec fn grpc_batch_view(records: Seq<TelemetryGrpcEvent>) -> Seq<GrpcEventView> {
    Seq::new(records.len(), |i: int| records[i]@)
}

fn grpc_tags(tags: &Vec<TelemetryEventTag>) -> (r: Vec<EventGrpcTag>)
    ensures
        grpc_tags_view(r@) == tags_view(tags@),
{
    let mut out: Vec<EventGrpcTag> = Vec::with_capacity(tags.len());
    let mut i: usize = 0;
    while i < tags.len()
        invariant
            i <= tags@.len(),
            out@.len() == i,
            forall|j: int| 0 <= j < i ==> (#[trigger] out@[j])@ == tags@[j]@,
        decreases tags@.len() - i,
    {
        let tag = &tags[i];
        out.push(EventGrpcTag { key: tag.key.clone(), value: tag.value.clone() });
        i = i + 1;
    }
    assert(grpc_tags_view(out@) =~= tags_view(tags@));
    out
}

/// The RPC record of one event.
pub fn grpc_record(service_name: &str, item: &TelemetryEvent) -> (r: TelemetryGrpcEvent)
    ensures
        r@ == grpc_record_of(item@, service_name@),
{
    let tags = match &item.tags {
        Some(t) => grpc_tags(t),
        None => {
            let empty: Vec<EventGrpcTag> = Vec::new();
            assert(grpc_tags_view(empty@) =~= Seq::<TagView>::empty());
            empty
        },
    };
    TelemetryGrpcEvent {
        process_id: item.process_id,
        started_at: item.started,
        finished_at: item.finished,
        service_name: service_name.to_string(),
        event_data: item.data.clone(),
        success: clone_opt_string(&item.success),
        fail: clone_opt_string(&item.fail),
        tags,
    }
}

/// Turns a drained batch into the records of the RPC upload stream, one for
/// each event, in the same order.
pub fn grpc_records(service_name: &str, to_write: &Vec<TelemetryEvent>) -> (r: Vec<TelemetryGrpcEvent>)
    ensures
        grpc_batch_view(r@) == grpc_batch_of(batch_view(to_write@), service_name@),
{
    let mut out: Vec<TelemetryGrpcEvent> = Vec::with_capacity(to_write.len());
    let mut i: usize = 0;
    while i < to_write.len()
        invariant
            i <= to_write@.len(),
            out@.len() == i,
            forall|j: int|
                0 <= j < i ==> (#[trigger] out@[j])@ == grpc_record_of(
                    to_write@[j]@,
                    service_name@,
                ),
        decreases to_write@.len() - i,
    {
        out.push(grpc_record(service_name, &to_write[i]));
        i = i + 1;
    }
    assert(grpc_batch_view(out@) =~= grpc_batch_of(batch_view(to_write@), service_name@));
    out
}

/// Every event that the RPC schema can carry is read back, unchanged and in
/// its place, from the RPC records of its batch, and every record names the
/// sending service.
pub proof fn lemma_grpc_batch_round_trip(events: Seq<EventView>, service: Seq<char>)
    ensures
        grpc_batch_of(events, service).len() == events.len(),
        forall|i: int|
            0 <= i < events.len() ==> (#[trigger] grpc_batch_of(events, service)[i]).service_name
                == service,
        forall|i: int|
            0 <= i < events.len() && fits_grpc_schema(events[i]) ==> event_of_grpc_record(
                #[trigger] grpc_batch_of(events, service)[i],
            ) == events[i],
{
}

/// How a finished RPC call ended.
#[derive(Debug, Clone, Copy, PartialEq, Eq, Structural)]
pub enum RpcOutcome {
    Completed,
    Failed,
    TimedOut,
}

/// What a liveness probe has to do, given the cached connection.
#[derive(Debug, Clone, Copy, PartialEq, Eq, Structural)]
pub enum ProbeAction {
    /// Ping the cached connection.
    PingCached,
    /// Establish a connection, then ping it.
    ConnectThenPing,
}

/// What the cache holds after a ping or an upload on `channel` ended with
/// `outcome`: the handle is kept only if the call completed.
pub open spec fn cached_after_call<C>(channel: C, outcome: RpcOutcome) -> Option<C> {
    if outcome == RpcOutcome::Completed {
        Some(channel)
    } else {
        None
    }
}

/// The cache of the RPC connection handle `C`. The handle is established
/// lazily, reused while calls on it succeed, and dropped as soon as a ping
/// or an upload on it fails or times out.
pub struct GrpcConnection<C> {
    channel: Option<C>,
}

impl<C> GrpcConnection<C> {
    /// The cached handle, if any.
    pub closed spec fn cached(&self) -> Option<C> {
        self.channel
    }

    pub open spec fn probe_action_of(&self) -> ProbeAction {
        if self.cached() is Some {
            ProbeAction::PingCached
        } else {
            ProbeAction::ConnectThenPing
        }
    }

    pub fn new() -> (r: Self)
        ensures
            r.cached() is None,
    {
        Self { channel: None }
    }

    pub fn has_channel(&self) -> (r: bool)
        ensures
            r == (self.cached() is Some),
    {
        self.channel.is_some()
    }

    pub fn probe_action(&self) -> (r: ProbeAction)
        ensures
            r == self.probe_action_of(),
    {
        if self.channel.is_some() {
            ProbeAction::PingCached
        } else {
            ProbeAction::ConnectThenPing
        }
    }

    /// Hands the cached handle out for a call; the cache is empty until the
    /// handle is given back.
    pub fn take_channel(&mut self) -> (r: Option<C>)
        ensures
            r == old(self).cached(),
            final(self).cached() is None,
    {
        self.channel.take()
    }

    /// Caches the outcome of an attempt to establish a connection; returns
    /// whether there is a handle to call on.
    pub fn store_connection(&mut self, connected: Option<C>) -> (r: bool)
        ensures
            r == (connected is Some),
            final(self).cached() == connected,
    {
        let r = connected.is_some();
        self.channel = connected;
        r
    }

    fn settle_call(&mut self, channel: C, outcome: RpcOutcome) -> (r: bool)
        ensures
            r == (outcome == RpcOutcome::Completed),
            final(self).cached() == cached_after_call(channel, outcome),
    {
        match outcome {
            RpcOutcome::Completed => {
                self.channel = Some(channel);
                true
            },
            _ => {
                self.channel = None;
                false
            },
        }
    }

    /// Settles a probe that pinged `channel`, cached or fresh. The handle is
    /// cached again only if the ping completed: after an error or a timeout
    /// it is presumed broken, so the next probe reconnects. Returns whether
    /// the transport is reachable.
    pub fn finish_probe(&mut self, channel: C, outcome: RpcOutcome) -> (r: bool)
        ensures
            r == (outcome == RpcOutcome::Completed),
            final(self).cached() == cached_after_call(channel, outcome),
    {
        self.settle_call(channel, outcome)
    }

    /// Settles an upload made on `channel`. The handle is cached again only
    /// if the upload completed: after an error or a timeout it is presumed
    /// broken. Returns whether the batch was delivered.
    pub fn finish_upload(&mut self, channel: C, outcome: RpcOutcome) -> (r: bool)
        ensures
            r == (outcome == RpcOutcome::Completed),
            final(self).cached() == cached_after_call(channel, outcome),
    {
        self.settle_call(channel, outcome)
    }
}

/// A ping or an upload that fails or times out leaves no cached handle, so
/// the next probe has to establish a new connection.
pub proof fn lemma_failed_call_forces_reconnect<C>(
    after: GrpcConnection<C>,
    channel: C,
    outcome: RpcOutcome,
)
    requires
        outcome != RpcOutcome::Completed,
        after.cached() == cached_after_call(channel, outcome),
    ensures
        after.cached() is None,
        after.probe_action_of() == ProbeAction::ConnectThenPing,
{
}

} // verus!
