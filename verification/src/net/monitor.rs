//! The decisions of the reachability monitor.
//!
//! The monitor pings a destination at a fixed interval.  It remembers the last
//! address that replied and pings that address directly; without one it
//! resolves the destination and pings every address it resolves to.  Each ping
//! carries the number of the tick modulo `u16::MAX` as its sequence number.
use vstd::prelude::*;

use super::ip::IpAddr;

verus! {

/// What the monitor does at a tick.
#[derive(Clone, Copy, Debug, PartialEq, Eq, Structural)]
pub enum MonitorAction {
    /// Ping the cached address with the sequence number.
    PingCached(IpAddr, u16),
    /// Resolve the destination and ping its addresses with the sequence number.
    PingDestination(u16),
}

/// The sequence number of the ping at tick `tick`.
pub open spec fn sequence_number(tick: nat) -> u16 {
    (tick % 65535) as u16
}

/// The state of the monitor between ticks.
#[derive(Clone, Copy, Debug)]
pub struct MonitorState {
    /// The address that replied to the last ping, if it replied.
    pub cached: Option<IpAddr>,
    /// The number of ticks so far, modulo `u16::MAX`.
    pub tick: u16,
    /// The action of the ongoing tick, if any.
    pub pending: Option<MonitorAction>,
}

impl MonitorState {
    /// A monitor that has not pinged yet.
    pub fn new() -> (r: Self)
        ensures
            r.cached is None,
            r.tick == 0,
            r.pending is None,
    {
        MonitorState { cached: None, tick: 0, pending: None }
    }

    /// Start a tick: ping the cached address, taking it out of the cache, or
    /// resolve the destination when nothing is cached.
    pub fn start_tick(&mut self) -> (r: MonitorAction)
        ensures
            (*final(self), r) == spec_start_tick(*old(self)),
    {
        let seqnr = (self.tick % 65535) as u16;
        let action = match self.cached {
            Some(a) => MonitorAction::PingCached(a, seqnr),
            None => MonitorAction::PingDestination(seqnr),
        };
        self.cached = None;
        self.tick = (seqnr + 1) % 65535;
        self.pending = Some(action);
        action
    }

    /// Finish a tick with the address that replied, if any; a replying address
    /// is cached for the next tick.
    pub fn finish_tick(&mut self, replied: Option<IpAddr>)
        ensures
            *final(self) == spec_finish_tick(*old(self), replied),
    {
        self.cached = replied;
        self.pending = None;
    }
}

/// The state and action after starting a tick in state `s`.
pub open spec fn spec_start_tick(s: MonitorState) -> (MonitorState, MonitorAction) {
    let action = match s.cached {
        Some(a) => MonitorAction::PingCached(a, sequence_number(s.tick as nat)),
        None => MonitorAction::PingDestination(sequence_number(s.tick as nat)),
    };
    (
        MonitorState {
            cached: None,
            tick: ((s.tick % 65535 + 1) % 65535) as u16,
            pending: Some(action),
        },
        action,
    )
}

/// The state after finishing a tick in state `s` with `replied`.
pub open spec fn spec_finish_tick(s: MonitorState, replied: Option<IpAddr>) -> MonitorState {
    MonitorState { cached: replied, tick: s.tick, pending: None }
}

/// A tick that reached `address` makes the next tick ping `address` directly,
/// with the next sequence number; a tick that reached nothing makes the next
/// tick resolve the destination again.
pub proof fn lemma_next_tick_follows_reply(s: MonitorState, replied: Option<IpAddr>)
    ensures
        ({
            let (started, _) = spec_start_tick(s);
            let (_, next) = spec_start_tick(spec_finish_tick(started, replied));
            match replied {
                Some(a) => next == MonitorAction::PingCached(a, sequence_number(s.tick as nat + 1)),
                None => next == MonitorAction::PingDestination(sequence_number(s.tick as nat + 1)),
            }
        }),
{
    let t = s.tick as nat;
    assert(((t % 65535 + 1) % 65535) % 65535 == (t + 1) % 65535) by (nonlinear_arith);
}

/// Sequence numbers run through all values below `u16::MAX` and then start over.
pub proof fn lemma_sequence_numbers_wrap(tick: nat)
    ensures
        sequence_number(tick + 65535) == sequence_number(tick),
        sequence_number(tick) < 65535,
{
    assert((tick + 65535) % 65535 == tick % 65535) by (nonlinear_arith);
}

/// The time a ping may take in a monitor that pings every `interval_millis`
/// milliseconds: half the interval.
pub fn ping_timeout_millis(interval_millis: u64) -> (r: u64)
    ensures
        r == interval_millis / 2,
{
    interval_millis / 2
}

/// The interval of the ping scheduler, in milliseconds.
pub const PING_INTERVAL_MILLIS: u64 = 5000;

/// Whether the ping scheduler runs its timer.
#[derive(Clone, Copy, Debug, PartialEq, Eq, Structural)]
pub struct PingSchedule {
    pub running: bool,
}

/// The schedule and the answer after starting schedule `s`.
pub open spec fn spec_schedule_start(s: PingSchedule) -> (PingSchedule, bool) {
    (PingSchedule { running: true }, !s.running)
}

/// The schedule and the answer after stopping schedule `s`.
pub open spec fn spec_schedule_stop(s: PingSchedule) -> (PingSchedule, bool) {
    (PingSchedule { running: false }, s.running)
}

impl PingSchedule {
    /// A schedule that does not run.
    pub fn new() -> (r: Self)
        ensures
            !r.running,
    {
        PingSchedule { running: false }
    }

    /// Start the schedule; returns whether it was not running, so that the
    /// caller starts the timer and pings once right away.
    pub fn start(&mut self) -> (r: bool)
        ensures
            (*final(self), r) == spec_schedule_start(*old(self)),
    {
        if self.running {
            false
        } else {
            self.running = true;
            true
        }
    }

    /// Stop the schedule; returns whether it was running, so that the caller
    /// removes the timer.
    pub fn stop(&mut self) -> (r: bool)
        ensures
            (*final(self), r) == spec_schedule_stop(*old(self)),
    {
        let was_running = self.running;
        self.running = false;
        was_running
    }
}

/// Starting a started schedule starts no second timer; stopping a started
/// schedule removes its timer, and stopping it again removes nothing.
pub proof fn lemma_schedule_start_stop(s: PingSchedule)
    ensures
        !spec_schedule_start(spec_schedule_start(s).0).1,
        spec_schedule_stop(spec_schedule_start(s).0).1,
        !spec_schedule_stop(spec_schedule_stop(s).0).1,
{
}

} // verus!
