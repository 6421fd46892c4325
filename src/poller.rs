//! The acquisition loop's decisions, as a state machine from the outcome of the last
//! action to the next action. The caller performs each action (probe, fetch, publish,
//! sleep) and reports its outcome; nothing here waits or talks to the network.
use vstd::prelude::*;

verus! {

/// Pause after a liveness probe that found no session, in milliseconds.
pub const IDLE_WAIT_MS: u64 = 5000;

/// Pause after each cycle with an active session, in milliseconds.
pub const ACTIVE_WAIT_MS: u64 = 1000;

/// Whether the last liveness probe found a session.
#[derive(Clone, Copy, Debug, PartialEq, Eq, Structural)]
pub enum Mode {
    Idle,
    Active,
}

/// What the loop asks its driver to do next.
#[derive(Clone, Copy, Debug, PartialEq, Eq, Structural)]
pub enum Action {
    /// Ask the client whether a session is running.
    Probe,
    /// Request and decode the full snapshot.
    Fetch,
    /// Hand the decoded snapshot to the consumer.
    Publish,
    /// Suspend for the given number of milliseconds.
    Sleep { millis: u64 },
    /// Finish: the consumer has gone.
    Stop,
}

/// How a full-snapshot request ended.
#[derive(Clone, Copy, Debug, PartialEq, Eq, Structural)]
pub enum FetchOutcome {
    /// The body decoded into a snapshot.
    Decoded,
    /// The body arrived but did not decode.
    DecodeFailed,
    /// The request failed or the status was not a success.
    TransportFailed,
}

/// The outcome of the action last asked for.
#[derive(Clone, Copy, Debug, PartialEq, Eq, Structural)]
pub enum Event {
    Probed { active: bool },
    Fetched { outcome: FetchOutcome },
    Published { delivered: bool },
    Slept,
}

/// State of the acquisition loop: the session mode and the action it waits on.
#[derive(Clone, Copy, Debug, PartialEq, Eq, Structural)]
pub struct Poller {
    pub mode: Mode,
    pub pending: Action,
}

/// The state after `e` is reported in state `s`. An event that does not answer the
/// pending action leaves the state as it is, so the same action is asked for again.
pub open spec fn next(s: Poller, e: Event) -> Poller {
    match s.pending {
        Action::Probe => match e {
            Event::Probed { active } => if active {
                Poller { mode: Mode::Active, pending: Action::Fetch }
            } else {
                Poller { mode: Mode::Idle, pending: Action::Sleep { millis: IDLE_WAIT_MS } }
            },
            _ => s,
        },
        Action::Fetch => match e {
            Event::Fetched { outcome } => if outcome == FetchOutcome::Decoded {
                Poller { mode: s.mode, pending: Action::Publish }
            } else {
                Poller { mode: s.mode, pending: Action::Sleep { millis: ACTIVE_WAIT_MS } }
            },
            _ => s,
        },
        Action::Publish => match e {
            Event::Published { delivered } => if delivered {
                Poller { mode: s.mode, pending: Action::Sleep { millis: ACTIVE_WAIT_MS } }
            } else {
                Poller { mode: s.mode, pending: Action::Stop }
            },
            _ => s,
        },
        Action::Sleep { .. } => match e {
            Event::Slept => Poller { mode: s.mode, pending: Action::Probe },
            _ => s,
        },
        Action::Stop => s,
    }
}

impl Poller {
    /// A loop that has seen no session yet and starts with a probe.
    pub fn new() -> (p: Poller)
        ensures
            p == (Poller { mode: Mode::Idle, pending: Action::Probe }),
    {
        Poller { mode: Mode::Idle, pending: Action::Probe }
    }

    /// Reports the outcome of the pending action and returns the next one.
    pub fn step(&mut self, e: Event) -> (a: Action)
        ensures
            *final(self) == next(*old(self), e),
            a == final(self).pending,
    {
        let n = match self.pending {
            Action::Probe => match e {
                Event::Probed { active } => if active {
                    Poller { mode: Mode::Active, pending: Action::Fetch }
                } else {
                    Poller { mode: Mode::Idle, pending: Action::Sleep { millis: IDLE_WAIT_MS } }
                },
                _ => *self,
            },
            Action::Fetch => match e {
                Event::Fetched { outcome } => match outcome {
                    FetchOutcome::Decoded => Poller { mode: self.mode, pending: Action::Publish },
                    _ => Poller { mode: self.mode, pending: Action::Sleep { millis: ACTIVE_WAIT_MS } },
                },
                _ => *self,
            },
            Action::Publish => match e {
                Event::Published { delivered } => if delivered {
                    Poller { mode: self.mode, pending: Action::Sleep { millis: ACTIVE_WAIT_MS } }
                } else {
                    Poller { mode: self.mode, pending: Action::Stop }
                },
                _ => *self,
            },
            Action::Sleep { .. } => match e {
                Event::Slept => Poller { mode: self.mode, pending: Action::Probe },
                _ => *self,
            },
            Action::Stop => *self,
        };
        *self = n;
        n.pending
    }

    /// Whether the last probe found a session.
    pub fn is_active(&self) -> (r: bool)
        ensures
            r == (self.mode == Mode::Active),
    {
        match self.mode {
            Mode::Active => true,
            Mode::Idle => false,
        }
    }
}

/// A probe that finds no session is followed by a pause of exactly `IDLE_WAIT_MS`: the
/// loop asks for that pause, asks for it again on any report but its end, and probes
/// right after it.
pub proof fn lemma_idle_probe_waits(s: Poller, e: Event)
    requires
        s.pending == Action::Probe,
    ensures
        next(s, (Event::Probed { active: false })) == (Poller {
            mode: Mode::Idle,
            pending: (Action::Sleep { millis: IDLE_WAIT_MS }),
        }),
        e != Event::Slept ==> next(next(s, (Event::Probed { active: false })), e) == next(
            s,
            (Event::Probed { active: false }),
        ),
        next(next(s, (Event::Probed { active: false })), Event::Slept).pending == Action::Probe,
{
}

/// Every active cycle, whether it published a snapshot, failed to decode one or failed to
/// reach the client, ends in a pause of exactly `ACTIVE_WAIT_MS` before the next probe.
pub proof fn lemma_active_cycle_waits(s: Poller, outcome: FetchOutcome)
    requires
        s.pending == Action::Fetch,
    ensures
        outcome != FetchOutcome::Decoded ==> next(s, (Event::Fetched { outcome })).pending
            == (Action::Sleep { millis: ACTIVE_WAIT_MS }),
        outcome == FetchOutcome::Decoded ==> next(
            next(s, (Event::Fetched { outcome })),
            (Event::Published { delivered: true }),
        ).pending == (Action::Sleep { millis: ACTIVE_WAIT_MS }),
{
}

/// A pending pause is asked for until its end is reported, and a probe follows it.
pub proof fn lemma_sleep_then_probe(s: Poller, e: Event)
    requires
        s.pending is Sleep,
    ensures
        e == Event::Slept ==> next(s, e) == (Poller { mode: s.mode, pending: Action::Probe }),
        e != Event::Slept ==> next(s, e) == s,
{
}

/// Only a liveness probe changes the mode: a failed fetch, a failed decode, a publish or a
/// pause leaves an active loop active.
pub proof fn lemma_only_probe_changes_mode(s: Poller, e: Event)
    requires
        !(e is Probed),
    ensures
        next(s, e).mode == s.mode,
{
}

/// A transport error on the full fetch keeps the loop active and leads to the usual
/// pause, not to the idle back-off.
pub proof fn lemma_transport_error_stays_active(s: Poller)
    requires
        s == (Poller { mode: Mode::Active, pending: Action::Fetch }),
    ensures
        next(s, (Event::Fetched { outcome: FetchOutcome::TransportFailed })) == (Poller {
            mode: Mode::Active,
            pending: (Action::Sleep { millis: ACTIVE_WAIT_MS }),
        }),
{
}

/// A probe that finds a session is followed at once by a fetch, with no pause between.
pub proof fn lemma_active_probe_fetches(s: Poller)
    requires
        s.pending == Action::Probe,
    ensures
        next(s, (Event::Probed { active: true })) == (Poller {
            mode: Mode::Active,
            pending: Action::Fetch,
        }),
{
}

/// The loop stops only when a publish finds the consumer gone, and once stopped it stays so.
pub proof fn lemma_stops_only_when_consumer_gone(s: Poller, e: Event)
    ensures
        s.pending != Action::Stop && next(s, e).pending == Action::Stop ==> s.pending
            == Action::Publish && e == (Event::Published { delivered: false }),
        s.pending == Action::Stop ==> next(s, e) == s,
{
}

/// Snapshots are published only right after a fetch that decoded one.
pub proof fn lemma_publish_follows_decode(s: Poller, e: Event)
    ensures
        s.pending != Action::Publish && next(s, e).pending == Action::Publish ==> s.pending
            == Action::Fetch && e == (Event::Fetched { outcome: FetchOutcome::Decoded }),
{
}

} // verus!
