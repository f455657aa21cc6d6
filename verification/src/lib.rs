//! An in-process instrumentation agent for a managed execution engine.
//!
//! The crate models the two hard parts of such a plugin: the reference-counted
//! dispatch object that negotiates notification-interface versions with the
//! host, and the telemetry session pipeline that turns notification events
//! into ordered messages for a remote collector.

use vstd::prelude::*;

pub mod capability;
pub mod dispatch;
pub mod events;
pub mod facade;
pub mod guid;
pub mod handler;
pub mod session;

pub use capability::CapabilityEntry;
pub use capability::CorProfilerCallbackVtbl;
pub use capability::ICorProfilerCallback7;
pub use dispatch::CorProfilerCallback;
pub use dispatch::DispatchOutcome;
pub use dispatch::ProtocolViolation;
pub use dispatch::Unknown;
pub use dispatch::UnknownVtbl;
pub use dispatch::create_instance;
pub use dispatch::failure_status;
pub use dispatch::name_or_unknown;
pub use dispatch::outcome_for;
pub use dispatch::profiler_clsid;
pub use events::FinishReason;
pub use events::NotificationEvent;
pub use events::OutboundMessage;
pub use events::message_of;
pub use facade::ClassInfo;
pub use facade::FunctionInfo;
pub use facade::MetadataImportTrait;
pub use facade::MethodProps;
pub use facade::ProfilerInfoApi;
pub use facade::TypeDefProps;
pub use guid::Guid;
pub use guid::parse_guid;
pub use handler::NoopHandler;
pub use handler::ProfilerHandler;
pub use session::ControlRequests;
pub use session::Session;
pub use session::SessionAction;
pub use session::SessionState;

verus! {

/// The status code returned through the host's call interface:
/// zero is success, a negative value names a specific failure.
pub type Hresult = i32;

/// Success.
pub const S_OK: Hresult = 0;

/// Unspecified failure.
pub const E_FAIL: Hresult = -2147467259;

/// The requested interface identifier is absent from the capability table.
pub const E_NOINTERFACE: Hresult = -2147467262;

/// The factory does not serve the requested class identifier.
pub const CLASS_E_CLASSNOTAVAILABLE: Hresult = -2147221231;

} // verus!
