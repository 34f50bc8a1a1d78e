//! Lifecycle event broadcast to registered extension listeners. The core
//! records each fired event in order; delivery to the actual listeners is
//! fire-and-forget and happens outside the verified core.

use vstd::prelude::*;

verus! {

/// The extension protocol versions, oldest first. Every lifecycle event is
/// broadcast once per version, in this order.
#[derive(Clone, Copy, Debug, PartialEq, Eq, Structural)]
pub enum ApiVersion {
    V0,
    V1,
    V2,
}

/// A discrete lifecycle event visible to extensions.
#[derive(Debug, PartialEq, Eq)]
pub enum ApiEvent {
    InitCpuFreq,
    ResetCpuFreq,
    StartFas,
    StopFas,
    LoadFas { pid: i32, pkg: String },
    UnloadFas { pid: i32, pkg: String },
}

/// One event as fired towards one protocol version.
#[derive(Debug, PartialEq, Eq)]
pub struct FiredEvent {
    pub version: ApiVersion,
    pub event: ApiEvent,
}

/// The ordered log of events fired so far. A collaborator outside the core
/// drains it and delivers each entry to the registered listeners; a failing
/// listener must not block the others, so the core never waits on delivery.
pub struct Extension {
    pub events: Vec<FiredEvent>,
}

/// The three per-version copies of one event, in fixed delivery order.
pub open spec fn broadcast3(event: ApiEvent) -> Seq<FiredEvent> {
    seq![
        FiredEvent { version: ApiVersion::V0, event: event },
        FiredEvent { version: ApiVersion::V1, event: event },
        FiredEvent { version: ApiVersion::V2, event: event },
    ]
}

impl Extension {
    pub fn new() -> (e: Extension)
        ensures
            e.events@ == Seq::<FiredEvent>::empty(),
    {
        Extension { events: Vec::new() }
    }

    /// Record one event fired towards one protocol version.
    pub fn trigger_extensions(&mut self, version: ApiVersion, event: ApiEvent)
        ensures
            final(self).events@ == old(self).events@.push(
                FiredEvent { version: version, event: event },
            ),
    {
        self.events.push(FiredEvent { version, event });
    }

    /// Hand out the events fired so far and clear the log, so the unverified
    /// delivery loop can forward them.
    pub fn take_events(&mut self) -> (r: Vec<FiredEvent>)
        ensures
            r@ == old(self).events@,
            final(self).events@ == Seq::<FiredEvent>::empty(),
    {
        let mut out: Vec<FiredEvent> = Vec::new();
        core::mem::swap(&mut out, &mut self.events);
        out
    }
}

} // verus!
