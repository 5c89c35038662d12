//! The events that drive the missions, and the record that is kept of them.

use vstd::prelude::*;

verus! {

/// Every kind of event that a mission can raise.
#[derive(Clone, Copy, Debug, PartialEq, Eq, Structural)]
pub enum EventKind {
    LowVoltageDetected,
    Timeout,
    EntryFound,
    FlewInsideBuilding,
    FlewNearStartPoint,
    FoundAllCubes,
    QrFound,
    HoleFound,
    FlewNearLandingPoint,
    FlewThroughHole,
}

impl EventKind {
    /// The name under which an event of this kind is announced.
    pub open spec fn spec_name(self) -> Seq<char> {
        match self {
            EventKind::LowVoltageDetected => "LowVoltageDetected"@,
            EventKind::Timeout => "Timeout"@,
            EventKind::EntryFound => "EntryFound"@,
            EventKind::FlewInsideBuilding => "FlewInsideBuilding"@,
            EventKind::FlewNearStartPoint => "FlewNearStartPoint"@,
            EventKind::FoundAllCubes => "FoundAllCubes"@,
            EventKind::QrFound => "QrFound"@,
            EventKind::HoleFound => "HoleFound"@,
            EventKind::FlewNearLandingPoint => "FlewNearLandingPoint"@,
            EventKind::FlewThroughHole => "FlewThroughHole"@,
        }
    }

    /// The name under which an event of this kind is announced.
    pub fn name(&self) -> (name: &'static str)
        ensures
            name@ == self.spec_name(),
    {
        match self {
            EventKind::LowVoltageDetected => "LowVoltageDetected",
            EventKind::Timeout => "Timeout",
            EventKind::EntryFound => "EntryFound",
            EventKind::FlewInsideBuilding => "FlewInsideBuilding",
            EventKind::FlewNearStartPoint => "FlewNearStartPoint",
            EventKind::FoundAllCubes => "FoundAllCubes",
            EventKind::QrFound => "QrFound",
            EventKind::HoleFound => "HoleFound",
            EventKind::FlewNearLandingPoint => "FlewNearLandingPoint",
            EventKind::FlewThroughHole => "FlewThroughHole",
        }
    }
}

/// What a mission has raised so far, and whether it may still go on. Every
/// loop of the mission ends once `is_ok` is false.
#[derive(Debug)]
pub struct EventLog {
    pub is_ok: bool,
    /// The events raised, oldest first.
    pub events: Vec<EventKind>,
}

impl EventLog {
    /// The record of a mission that may go on and has raised nothing.
    pub fn new() -> (log: EventLog)
        ensures
            log.is_ok,
            log.events@ == Seq::<EventKind>::empty(),
    {
        EventLog { is_ok: true, events: Vec::new() }
    }

    /// Hands out the events that have not been announced yet, oldest first,
    /// and keeps none of them.
    pub fn take_events(&mut self) -> (events: Vec<EventKind>)
        ensures
            events@ == old(self).events@,
            final(self).events@ == Seq::<EventKind>::empty(),
            final(self).is_ok == old(self).is_ok,
    {
        let mut events = Vec::new();
        std::mem::swap(&mut events, &mut self.events);
        events
    }
}

/// Records that an event of the given kind was raised.
pub fn log_event(log: &mut EventLog, event: EventKind)
    ensures
        final(log).events@ == old(log).events@.push(event),
        final(log).is_ok == old(log).is_ok,
{
    log.events.push(event);
}

/// What keeps a mission from being completed.
#[derive(Clone, Copy, Debug, PartialEq, Eq, Structural)]
pub enum Failure {
    /// The battery voltage has fallen to the permitted minimum or below.
    LowVoltageDetected,
    /// The time for the active part of the mission has run out.
    Timeout,
}

impl Failure {
    /// Raises the failure of a low battery: the mission may not go on.
    pub fn new_low_voltage_detected(log: &mut EventLog) -> (failure: Failure)
        ensures
            failure == Failure::LowVoltageDetected,
            final(log).events@ == old(log).events@.push(EventKind::LowVoltageDetected),
            !final(log).is_ok,
    {
        log_event(log, EventKind::LowVoltageDetected);
        log.is_ok = false;
        Failure::LowVoltageDetected
    }

    /// Raises the failure of time run out: the mission may not go on.
    pub fn new_timeout(log: &mut EventLog) -> (failure: Failure)
        ensures
            failure == Failure::Timeout,
            final(log).events@ == old(log).events@.push(EventKind::Timeout),
            !final(log).is_ok,
    {
        log_event(log, EventKind::Timeout);
        log.is_ok = false;
        Failure::Timeout
    }
}

} // verus!
