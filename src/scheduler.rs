use vstd::prelude::*;
use crate::provider::RecordType;
use rand::Rng;

verus! {

/// Shortest wait between two ticks, in seconds.
pub const MIN_DELAY: u64 = 1;

/// Longest wait between two ticks, in seconds.
pub const MAX_DELAY: u64 = 300;

/// Where the polling loop stands. A cancellation moves a running or sleeping
/// loop straight to `Stopped` once the work in flight has returned.
#[derive(Debug, Clone, Copy, PartialEq, Eq, Structural)]
pub enum Phase {
    Running,
    Sleeping,
    Stopped,
}

/// What the loop's driver reports back.
#[derive(Debug, Clone, Copy, PartialEq, Eq, Structural)]
pub enum Event {
    /// the previous unit of work finished (or the loop starts)
    Ready,
    /// this many seconds of the current wait went by
    Elapsed(u64),
    /// the cancellation signal was observed
    Cancelled,
}

/// What the driver does next.
#[derive(Debug, Clone, Copy, PartialEq, Eq, Structural)]
pub enum Action {
    /// resolve the address of the record type's family and reconcile it
    Reconcile(RecordType),
    /// wait this many seconds, unless cancelled first
    Sleep(u64),
    /// leave the loop; a normal end
    Stop,
}

/// The polling schedule: per tick, the IPv4 unit and the IPv6 unit when
/// enabled, then a wait.
#[derive(Debug, Clone, Copy, PartialEq, Eq, Structural)]
pub struct Scheduler {
    pub ipv4: bool,
    pub ipv6: bool,
    pub phase: Phase,
    /// next unit of the tick: 0 the IPv4 one, 1 the IPv6 one, 2 the wait
    pub unit: u8,
    /// seconds of the current wait still to go
    pub remaining: u64,
}

pub open spec fn valid_delay(d: u64) -> bool {
    MIN_DELAY <= d <= MAX_DELAY
}

/// The first unit of the tick from place `s.unit` on, for a running loop.
pub open spec fn run_spec(s: Scheduler, delay: u64) -> (Scheduler, Action) {
    if s.unit == 0 && s.ipv4 {
        (Scheduler { unit: 1, ..s }, Action::Reconcile(RecordType::A))
    } else if s.unit <= 1 && s.ipv6 {
        (Scheduler { unit: 2, ..s }, Action::Reconcile(RecordType::AAAA))
    } else {
        (Scheduler { phase: Phase::Sleeping, unit: 0, remaining: delay, ..s }, Action::Sleep(delay))
    }
}

/// The loop's transition on `event`; `delay` is the wait taken if a wait
/// starts now.
pub open spec fn step_spec(s: Scheduler, event: Event, delay: u64) -> (Scheduler, Action) {
    if s.phase == Phase::Stopped {
        (s, Action::Stop)
    } else if event == Event::Cancelled {
        (Scheduler { phase: Phase::Stopped, ..s }, Action::Stop)
    } else if s.phase == Phase::Running {
        run_spec(s, delay)
    } else {
        match event {
            Event::Elapsed(e) => if e < s.remaining {
                (
                    Scheduler { remaining: (s.remaining - e) as u64, ..s },
                    Action::Sleep((s.remaining - e) as u64),
                )
            } else {
                run_spec(Scheduler { phase: Phase::Running, unit: 0, remaining: 0, ..s }, delay)
            },
            _ => (s, Action::Sleep(s.remaining)),
        }
    }
}

/// Relies on rand::thread_rng and Rng::gen_range: a number drawn from the
/// inclusive range given.
#[verifier::external_body]
fn draw_delay() -> (r: u64)
    ensures
        valid_delay(r),
{
    rand::thread_rng().gen_range(MIN_DELAY..=MAX_DELAY)
}

impl Scheduler {
    /// A loop at the start of its first tick.
    pub fn new(ipv4: bool, ipv6: bool) -> (r: Scheduler)
        ensures
            r == (Scheduler { ipv4, ipv6, phase: Phase::Running, unit: 0, remaining: 0 }),
    {
        Scheduler { ipv4, ipv6, phase: Phase::Running, unit: 0, remaining: 0 }
    }

    fn run(&mut self, delay: u64) -> (r: Action)
        ensures
            (*final(self), r) == run_spec(*old(self), delay),
    {
        if self.unit == 0 && self.ipv4 {
            self.unit = 1;
            Action::Reconcile(RecordType::A)
        } else if self.unit <= 1 && self.ipv6 {
            self.unit = 2;
            Action::Reconcile(RecordType::AAAA)
        } else {
            self.phase = Phase::Sleeping;
            self.unit = 0;
            self.remaining = delay;
            Action::Sleep(delay)
        }
    }

    /// Moves the loop on `event`, with `delay` as the wait if one starts.
    pub fn step(&mut self, event: Event, delay: u64) -> (r: Action)
        ensures
            (*final(self), r) == step_spec(*old(self), event, delay),
    {
        if self.phase == Phase::Stopped {
            return Action::Stop;
        }
        if event == Event::Cancelled {
            self.phase = Phase::Stopped;
            return Action::Stop;
        }
        if self.phase == Phase::Running {
            return self.run(delay);
        }
        match event {
            Event::Elapsed(e) => if e < self.remaining {
                self.remaining = self.remaining - e;
                Action::Sleep(self.remaining)
            } else {
                self.phase = Phase::Running;
                self.unit = 0;
                self.remaining = 0;
                self.run(delay)
            },
            _ => Action::Sleep(self.remaining),
        }
    }

    /// Moves the loop on `event`; a wait that starts now lasts a random
    /// number of seconds between the bounds.
    pub fn next(&mut self, event: Event) -> (r: Action)
        ensures
            exists|d: u64| valid_delay(d) && (*final(self), r) == step_spec(*old(self), event, d),
    {
        let d = draw_delay();
        self.step(event, d)
    }
}

/// A cancellation during a wait ends the loop at once: the rest of the wait
/// is not taken and no further work is started.
pub proof fn lemma_cancel_interrupts_sleep(s: Scheduler, delay: u64)
    requires
        s.phase == Phase::Sleeping,
    ensures
        step_spec(s, Event::Cancelled, delay).1 == Action::Stop,
        step_spec(s, Event::Cancelled, delay).0.phase == Phase::Stopped,
{
}

/// A stopped loop stays stopped and does no more work, whatever happens.
pub proof fn lemma_stopped_is_final(s: Scheduler, event: Event, delay: u64)
    requires
        s.phase == Phase::Stopped,
    ensures
        step_spec(s, event, delay) == (s, Action::Stop),
{
}

/// Every wait the loop starts lies within the bounds when the delay does.
pub proof fn lemma_wait_bounded(s: Scheduler, event: Event, delay: u64)
    requires
        valid_delay(delay),
        s.phase != Phase::Sleeping || s.remaining <= MAX_DELAY,
    ensures
        step_spec(s, event, delay).1 matches Action::Sleep(d) ==> d <= MAX_DELAY,
{
}

} // verus!
