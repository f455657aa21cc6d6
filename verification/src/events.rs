use vstd::prelude::*;

verus! {

/// One typed occurrence built from a raw notification call, carrying the
/// minimal payload the telemetry path needs. Times are ticks captured at the
/// notification boundary.
#[derive(Clone, Debug)]
pub enum NotificationEvent {
    ClassLoadStart { time: u64, name: String },
    ClassLoadFinished { time: u64, name: String },
    ClassUnloadStart { time: u64, name: String },
    ClassUnloadFinished { time: u64, name: String },
    ThreadCreated { time: u64, os_id: u64 },
    ThreadDestroyed { time: u64, os_id: u64 },
    ThreadResumed { time: u64, os_id: u64 },
    ThreadSuspended { time: u64, os_id: u64 },
    ExceptionThrown { time: u64, name: String },
    JitStart { time: u64, name: String },
    JitFinished { time: u64, name: String },
    ObjectAllocated {
        time: u64,
        object_id: u64,
        size: u64,
        class_name: String,
        generation: Option<u32>,
    },
    GenerationsUpdate { time: u64, objects: Vec<(u64, Option<u32>)> },
}

/// Why a session-finish message was sent.
#[derive(Clone, Copy, PartialEq, Eq, Structural, Debug)]
pub enum FinishReason {
    /// The plugin itself asked the session to stop (shutdown signal).
    LocalRequest,
    /// The event-producing side disappeared while the session was running.
    ProducerLost,
    /// The host tore the plugin down from outside.
    HostInterrupted,
}

/// A message for the remote collector. Point-in-time resource statistics are
/// attached by the unverified sender, outside this model, and so do not
/// appear here.
#[derive(Clone, Debug)]
pub enum OutboundMessage {
    SessionStart { pid: u32, cmd: String, path: String },
    SessionFinish { pid: u32, reason: FinishReason },
    TimestampEvent { pid: u32, time: u64, payload: String },
    TimestampIdEvent { pid: u32, time: u64, id: u64 },
    ObjectAllocated {
        pid: u32,
        time: u64,
        object_id: u64,
        size: u64,
        class_name: String,
        generation: Option<u32>,
    },
    GenerationsUpdate { pid: u32, time: u64, objects: Vec<(u64, Option<u32>)> },
}

impl OutboundMessage {
    /// Whether this message reports a notification event, rather than the
    /// session's own lifecycle.
    pub open spec fn is_event_message(self) -> bool {
        match self {
            OutboundMessage::SessionStart { .. } => false,
            OutboundMessage::SessionFinish { .. } => false,
            _ => true,
        }
    }
}

/// The protocol message that reports `ev` for process `pid`.
pub open spec fn message_of_spec(pid: u32, ev: NotificationEvent) -> OutboundMessage {
    match ev {
        NotificationEvent::ClassLoadStart { time, name } => (OutboundMessage::TimestampEvent {
            pid,
            time,
            payload: name,
        }),
        NotificationEvent::ClassLoadFinished { time, name } => (OutboundMessage::TimestampEvent {
            pid,
            time,
            payload: name,
        }),
        NotificationEvent::ClassUnloadStart { time, name } => (OutboundMessage::TimestampEvent {
            pid,
            time,
            payload: name,
        }),
        NotificationEvent::ClassUnloadFinished { time, name } => (OutboundMessage::TimestampEvent {
            pid,
            time,
            payload: name,
        }),
        NotificationEvent::ThreadCreated { time, os_id } => (OutboundMessage::TimestampIdEvent {
            pid,
            time,
            id: os_id,
        }),
        NotificationEvent::ThreadDestroyed { time, os_id } => (OutboundMessage::TimestampIdEvent {
            pid,
            time,
            id: os_id,
        }),
        NotificationEvent::ThreadResumed { time, os_id } => (OutboundMessage::TimestampIdEvent {
            pid,
            time,
            id: os_id,
        }),
        NotificationEvent::ThreadSuspended { time, os_id } => (OutboundMessage::TimestampIdEvent {
            pid,
            time,
            id: os_id,
        }),
        NotificationEvent::ExceptionThrown { time, name } => (OutboundMessage::TimestampEvent {
            pid,
            time,
            payload: name,
        }),
        NotificationEvent::JitStart { time, name } => (OutboundMessage::TimestampEvent {
            pid,
            time,
            payload: name,
        }),
        NotificationEvent::JitFinished { time, name } => (OutboundMessage::TimestampEvent {
            pid,
            time,
            payload: name,
        }),
        NotificationEvent::ObjectAllocated { time, object_id, size, class_name, generation } => (OutboundMessage::ObjectAllocated {
            pid,
            time,
            object_id,
            size,
            class_name,
            generation,
        }),
        NotificationEvent::GenerationsUpdate { time, objects } => (OutboundMessage::GenerationsUpdate {
            pid,
            time,
            objects,
        }),
    }
}

/// Re-derives the outgoing protocol message from one queued event, without
/// mutating anything else.
pub fn message_of(pid: u32, ev: NotificationEvent) -> (m: OutboundMessage)
    ensures
        m == message_of_spec(pid, ev),
{
    match ev {
        NotificationEvent::ClassLoadStart { time, name } => OutboundMessage::TimestampEvent {
            pid,
            time,
            payload: name,
        },
        NotificationEvent::ClassLoadFinished { time, name } => OutboundMessage::TimestampEvent {
            pid,
            time,
            payload: name,
        },
        NotificationEvent::ClassUnloadStart { time, name } => OutboundMessage::TimestampEvent {
            pid,
            time,
            payload: name,
        },
        NotificationEvent::ClassUnloadFinished { time, name } => OutboundMessage::TimestampEvent {
            pid,
            time,
            payload: name,
        },
        NotificationEvent::ThreadCreated { time, os_id } => OutboundMessage::TimestampIdEvent {
            pid,
            time,
            id: os_id,
        },
        NotificationEvent::ThreadDestroyed { time, os_id } => OutboundMessage::TimestampIdEvent {
            pid,
            time,
            id: os_id,
        },
        NotificationEvent::ThreadResumed { time, os_id } => OutboundMessage::TimestampIdEvent {
            pid,
            time,
            id: os_id,
        },
        NotificationEvent::ThreadSuspended { time, os_id } => OutboundMessage::TimestampIdEvent {
            pid,
            time,
            id: os_id,
        },
        NotificationEvent::ExceptionThrown { time, name } => OutboundMessage::TimestampEvent {
            pid,
            time,
            payload: name,
        },
        NotificationEvent::JitStart { time, name } => OutboundMessage::TimestampEvent {
            pid,
            time,
            payload: name,
        },
        NotificationEvent::JitFinished { time, name } => OutboundMessage::TimestampEvent {
            pid,
            time,
            payload: name,
        },
        NotificationEvent::ObjectAllocated { time, object_id, size, class_name, generation } => OutboundMessage::ObjectAllocated {
            pid,
            time,
            object_id,
            size,
            class_name,
            generation,
        },
        NotificationEvent::GenerationsUpdate { time, objects } => OutboundMessage::GenerationsUpdate {
            pid,
            time,
            objects,
        },
    }
}

} // verus!
