use vstd::prelude::*;
use crate::event::{batch_view, TelemetryEvent};
use crate::grpc_writer::{grpc_batch_of, grpc_batch_view, grpc_records, TelemetryGrpcEvent};
use crate::http_writer::{http_batch_of, http_batch_view, http_records, TelemetryHttpModel};
use crate::write_mode::{WriteMode, WriteModeKeeper};

verus! {

/// The shipping loop runs one tick every this many seconds.
pub const TICK_INTERVAL_SECS: u64 = 1;

/// Where a tick stands.
#[derive(Debug, Clone, Copy, PartialEq, Eq, Structural)]
pub enum TickPhase {
    /// Between ticks.
    Idle,
    /// Waiting for the outcome of the RPC liveness probe.
    Probing,
    /// Waiting for the batch drained from the collector.
    Draining,
    /// Waiting for the outcome of the delivery.
    Dispatching,
}

/// What the caller has to do next for the tick.
pub enum TickAction {
    /// Probe the RPC transport, then report with `on_probe`.
    Probe,
    /// Drain the collector, then report with `on_drained`.
    Drain,
    /// Upload these records over RPC, then report with `on_delivered`.
    UploadGrpc(Vec<TelemetryGrpcEvent>),
    /// Post these records over HTTP, then report with `on_delivered`.
    PostHttp(Vec<TelemetryHttpModel>),
    /// The tick is over; no network call is due.
    Finished,
}

/// The state of the loop: the mode register and the phase of the tick.
#[derive(Debug, Clone, Copy, PartialEq, Eq, Structural)]
pub struct LoopState {
    pub mode: WriteMode,
    pub phase: TickPhase,
}

/// What the caller reports to the loop.
#[derive(Debug, Clone, Copy, PartialEq, Eq, Structural)]
pub enum LoopEvent {
    TickStarted,
    ProbeDone { reachable: bool },
    Drained { has_events: bool },
    Delivered { ok: bool },
    /// A tick that stopped before its end (its future was dropped).
    Abandoned,
}

/// One transition of the loop.
pub open spec fn next_state(s: LoopState, e: LoopEvent) -> LoopState {
    match e {
        LoopEvent::TickStarted => LoopState {
            mode: s.mode,
            phase: if s.mode is Unknown {
                TickPhase::Probing
            } else {
                TickPhase::Draining
            },
        },
        LoopEvent::ProbeDone { reachable } => LoopState {
            mode: if reachable {
                WriteMode::Grpc
            } else {
                WriteMode::Http
            },
            phase: TickPhase::Draining,
        },
        LoopEvent::Drained { has_events } => LoopState {
            mode: s.mode,
            phase: if has_events {
                TickPhase::Dispatching
            } else {
                TickPhase::Idle
            },
        },
        LoopEvent::Delivered { ok } => LoopState {
            mode: if ok {
                s.mode
            } else {
                WriteMode::Unknown
            },
            phase: TickPhase::Idle,
        },
        LoopEvent::Abandoned => LoopState {
            mode: if s.phase is Idle {
                s.mode
            } else {
                WriteMode::Unknown
            },
            phase: TickPhase::Idle,
        },
    }
}

/// The state reached from `s` through `events`, in order.
pub open spec fn run(s: LoopState, events: Seq<LoopEvent>) -> LoopState
    decreases events.len(),
{
    if events.len() == 0 {
        s
    } else {
        next_state(run(s, events.drop_last()), events.last())
    }
}

/// A batch is only drained or dispatched once the transport is resolved.
pub open spec fn loop_state_wf(s: LoopState) -> bool {
    (s.phase is Draining || s.phase is Dispatching) ==> !(s.mode is Unknown)
}

pub open spec fn has_events(events: Option<Vec<TelemetryEvent>>) -> bool {
    events matches Some(v) && v@.len() > 0
}

/// The decisions of the shipping loop. Each tick runs `start_tick`, then, as
/// the actions ask, `on_probe`, `on_drained` and `on_delivered`.
pub struct TelemetryTimer {
    app_name: String,
    write_mode: WriteModeKeeper,
    phase: TickPhase,
}

impl View for TelemetryTimer {
    type V = LoopState;

    closed spec fn view(&self) -> LoopState {
        LoopState { mode: self.write_mode@, phase: self.phase }
    }
}

impl TelemetryTimer {
    pub closed spec fn app_name_view(&self) -> Seq<char> {
        self.app_name@
    }

    pub open spec fn wf(&self) -> bool {
        loop_state_wf(self@)
    }

    pub fn new(app_name: String) -> (r: Self)
        ensures
            r@ == (LoopState { mode: WriteMode::Unknown, phase: TickPhase::Idle }),
            r.app_name_view() == app_name@,
            r.wf(),
    {
        Self { app_name, write_mode: WriteModeKeeper::new(), phase: TickPhase::Idle }
    }

    pub fn app_name(&self) -> (r: &str)
        ensures
            r@ == self.app_name_view(),
    {
        self.app_name.as_str()
    }

    pub fn write_mode(&self) -> (r: WriteMode)
        ensures
            r == self@.mode,
    {
        self.write_mode.get_write_mode()
    }

    pub fn phase(&self) -> (r: TickPhase)
        ensures
            r == self@.phase,
    {
        self.phase
    }

    /// Begins a tick: probe first if the transport is unknown, else drain.
    pub fn start_tick(&mut self) -> (r: TickAction)
        requires
            old(self).wf(),
            old(self)@.phase is Idle,
        ensures
            final(self)@ == next_state(old(self)@, LoopEvent::TickStarted),
            final(self).app_name_view() == old(self).app_name_view(),
            final(self).wf(),
            old(self)@.mode is Unknown ==> r is Probe,
            !(old(self)@.mode is Unknown) ==> r is Drain,
    {
        if self.write_mode.get_write_mode().is_unknown() {
            self.phase = TickPhase::Probing;
            TickAction::Probe
        } else {
            self.phase = TickPhase::Draining;
            TickAction::Drain
        }
    }

    /// Takes the probe's outcome: RPC if it is reachable, else HTTP. The tick
    /// goes on by draining.
    pub fn on_probe(&mut self, reachable: bool) -> (r: TickAction)
        requires
            old(self)@.phase is Probing,
        ensures
            r is Drain,
            final(self)@ == next_state(old(self)@, LoopEvent::ProbeDone { reachable }),
            final(self).app_name_view() == old(self).app_name_view(),
            final(self).wf(),
    {
        if reachable {
            self.write_mode.set_write_mode(WriteMode::Grpc);
        } else {
            self.write_mode.set_write_mode(WriteMode::Http);
        }
        self.phase = TickPhase::Draining;
        TickAction::Drain
    }

    /// Takes the drained batch. With nothing pending the tick ends with no
    /// network call; else the batch goes to the resolved transport, as its
    /// records, in order.
    pub fn on_drained(&mut self, to_write: Option<Vec<TelemetryEvent>>) -> (r: TickAction)
        requires
            old(self).wf(),
            old(self)@.phase is Draining,
        ensures
            final(self)@ == next_state(
                old(self)@,
                LoopEvent::Drained { has_events: has_events(to_write) },
            ),
            final(self).app_name_view() == old(self).app_name_view(),
            final(self).wf(),
            !has_events(to_write) ==> r is Finished,
            has_events(to_write) && old(self)@.mode is Grpc ==> (r matches TickAction::UploadGrpc(
                recs,
            ) && grpc_batch_view(recs@) == grpc_batch_of(
                batch_view(to_write->0@),
                old(self).app_name_view(),
            )),
            has_events(to_write) && old(self)@.mode is Http ==> (r matches TickAction::PostHttp(
                recs,
            ) && http_batch_view(recs@) == http_batch_of(
                batch_view(to_write->0@),
                old(self).app_name_view(),
            )),
    {
        let batch = match to_write {
            Some(v) => v,
            None => {
                self.phase = TickPhase::Idle;
                return TickAction::Finished;
            },
        };
        if batch.len() == 0 {
            self.phase = TickPhase::Idle;
            return TickAction::Finished;
        }
        self.phase = TickPhase::Dispatching;
        match self.write_mode.get_write_mode() {
            WriteMode::Grpc => TickAction::UploadGrpc(grpc_records(self.app_name.as_str(), &batch)),
            _ => TickAction::PostHttp(http_records(self.app_name.as_str(), &batch)),
        }
    }

    /// Takes the delivery's outcome and ends the tick. A failed delivery
    /// makes the transport unknown, so the next tick probes again; the batch
    /// is not kept.
    pub fn on_delivered(&mut self, ok: bool) -> (r: TickAction)
        requires
            old(self)@.phase is Dispatching,
        ensures
            r is Finished,
            final(self)@ == next_state(old(self)@, LoopEvent::Delivered { ok }),
            final(self).app_name_view() == old(self).app_name_view(),
            final(self).wf(),
    {
        if !ok {
            self.write_mode.set_write_mode(WriteMode::Unknown);
        }
        self.phase = TickPhase::Idle;
        TickAction::Finished
    }

    /// Ends a tick that stopped part-way, as a failed delivery would: the
    /// batch, if any, is lost and the next tick probes again. Between ticks
    /// it changes nothing.
    pub fn abandon_tick(&mut self)
        ensures
            final(self)@ == next_state(old(self)@, LoopEvent::Abandoned),
            final(self).app_name_view() == old(self).app_name_view(),
            final(self).wf(),
    {
        match self.phase {
            TickPhase::Idle => {},
            _ => {
                self.write_mode.set_write_mode(WriteMode::Unknown);
                self.phase = TickPhase::Idle;
            },
        }
    }
}

pub open spec fn is_failure(e: LoopEvent) -> bool {
    ||| e == (LoopEvent::ProbeDone { reachable: false })
    ||| e == (LoopEvent::Delivered { ok: false })
}

/// Whatever the outcomes that came before, right after a failed probe or a
/// failed delivery the register does not hold RPC.
pub proof fn lemma_failure_never_leaves_grpc(s: LoopState, events: Seq<LoopEvent>, i: int)
    requires
        0 <= i < events.len(),
        is_failure(events[i]),
    ensures
        run(s, events.take(i + 1)).mode != WriteMode::Grpc,
{
    assert(events.take(i + 1).drop_last() =~= events.take(i));
    assert(events.take(i + 1).last() == events[i]);
}

/// A drain that finds nothing leaves the mode as it was, and a whole tick
/// that starts with a resolved transport and finds nothing changes no state.
pub proof fn lemma_empty_drain_keeps_mode(s: LoopState)
    ensures
        next_state(s, LoopEvent::Drained { has_events: false }).mode == s.mode,
        !(s.mode is Unknown) && s.phase is Idle ==> run(
            s,
            seq![LoopEvent::TickStarted, LoopEvent::Drained { has_events: false }],
        ) == s,
{
    let evs = seq![LoopEvent::TickStarted, LoopEvent::Drained { has_events: false }];
    assert(evs.drop_last() =~= seq![LoopEvent::TickStarted]);
    assert(evs.drop_last().drop_last() =~= Seq::<LoopEvent>::empty());
    assert(run(s, evs.drop_last().drop_last()) == s);
    assert(run(s, evs.drop_last()) == next_state(s, LoopEvent::TickStarted));
    assert(run(s, evs) == next_state(
        next_state(s, LoopEvent::TickStarted),
        LoopEvent::Drained { has_events: false },
    ));
}

proof fn lemma_unknown_until_probe(s: LoopState, events: Seq<LoopEvent>)
    requires
        s.mode is Unknown,
        forall|j: int| 0 <= j < events.len() ==> !(#[trigger] events[j] is ProbeDone),
    ensures
        run(s, events).mode is Unknown,
    decreases events.len(),
{
    if events.len() > 0 {
        let prefix = events.drop_last();
        assert forall|j: int| 0 <= j < prefix.len() implies !(#[trigger] prefix[j] is ProbeDone) by {
            assert(prefix[j] == events[j]);
        }
        lemma_unknown_until_probe(s, prefix);
        assert(!(events[events.len() - 1] is ProbeDone));
    }
}

/// A tick abandoned part-way leaves the mode unknown and the loop between
/// ticks, so the next tick probes first.
pub proof fn lemma_abandoned_tick_forces_probe(s: LoopState)
    requires
        !(s.phase is Idle),
    ensures
        next_state(s, LoopEvent::Abandoned).mode is Unknown,
        next_state(s, LoopEvent::Abandoned).phase is Idle,
        next_state(next_state(s, LoopEvent::Abandoned), LoopEvent::TickStarted).phase is Probing,
{
}

/// After a failed delivery the mode is unknown until a probe runs: whatever
/// comes next short of a probe, the next tick to start probes first, and no
/// batch can be drained or dispatched (a well-formed state with an unknown
/// mode is neither draining nor dispatching).
pub proof fn lemma_failure_forces_probe(s: LoopState, rest: Seq<LoopEvent>)
    requires
        forall|j: int| 0 <= j < rest.len() ==> !(#[trigger] rest[j] is ProbeDone),
    ensures
        ({
            let t = run(next_state(s, LoopEvent::Delivered { ok: false }), rest);
            &&& t.mode is Unknown
            &&& next_state(t, LoopEvent::TickStarted).phase is Probing
            &&& loop_state_wf(t) ==> !(t.phase is Draining) && !(t.phase is Dispatching)
        }),
{
    lemma_unknown_until_probe(next_state(s, LoopEvent::Delivered { ok: false }), rest);
}

/// Each transition keeps a well-formed state well formed when the event is
/// one that its phase waits for.
pub proof fn lemma_next_state_keeps_wf(s: LoopState, e: LoopEvent)
    requires
        loop_state_wf(s),
        e is TickStarted ==> s.phase is Idle,
        e is ProbeDone ==> s.phase is Probing,
        e is Drained ==> s.phase is Draining,
        e is Delivered ==> s.phase is Dispatching,
    ensures
        loop_state_wf(next_state(s, e)),
{
}

} // verus!
