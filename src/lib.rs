//! Transport-adaptive shipping of telemetry events.
//!
//! The library holds the decisions of the shipping pipeline: which transport
//! is believed to work, what a tick does next, when the cached RPC connection
//! is kept or dropped, and how a drained batch becomes the records of either
//! transport. The network calls themselves are made by the caller, which
//! hands the outcome of each call back to the library.
pub mod event;
pub mod grpc_writer;
pub mod http_writer;
pub mod telemetry_timer;
pub mod write_mode;

pub use event::{TelemetryEvent, TelemetryEventTag};
pub use grpc_writer::{
    grpc_record, grpc_records, EventGrpcTag, GrpcConnection, ProbeAction, RpcOutcome,
    TelemetryGrpcEvent, RPC_TIMEOUT_SECS,
};
pub use http_writer::{
    http_record, http_records, is_success_status, TelemetryHttpModel, TelemetryHttpTag, HTTP_ADD_SEGMENT,
    HTTP_API_SEGMENT,
};
pub use telemetry_timer::{
    LoopEvent, LoopState, TelemetryTimer, TickAction, TickPhase, TICK_INTERVAL_SECS,
};
pub use write_mode::{WriteMode, WriteModeKeeper};
