use vstd::prelude::*;

verus! {

/// Seconds between two checks of the store connection.
pub const CHECK_INTERVAL_SECS: u64 = 30;

/// How many times a lost connection is tried again before the monitor waits for
/// the next check.
pub const MAX_RECONNECT_ATTEMPTS: u64 = 5;

/// Where the connection monitor stands.
#[derive(Debug, Clone, Copy, PartialEq, Eq)]
pub enum MonitorState {
    /// Waiting for the next check.
    Watching,
    /// Connecting again, in this attempt (counted from 1).
    Connecting { attempt: u64 },
    /// Waiting before the attempt after this one.
    BackingOff { attempt: u64 },
}

/// What happened since the last action.
#[derive(Debug, Clone, Copy, PartialEq, Eq)]
pub enum MonitorEvent {
    /// The check interval elapsed; `closed` tells whether the connection is closed.
    Ticked { closed: bool },
    /// The new connection is open.
    Connected,
    /// The new connection could not be opened.
    ConnectFailed,
    /// The wait before the next attempt is over.
    Slept,
}

/// What to do next.
#[derive(Debug, Clone, Copy, PartialEq, Eq)]
pub enum MonitorAction {
    /// Wait for the next check.
    WaitTick,
    /// Open a new connection; this is attempt number `attempt`.
    Connect { attempt: u64 },
    /// Put the new connection in place of the lost one, then wait for the next check.
    Install,
    /// Wait this many seconds before the next attempt.
    Sleep { secs: u64 },
}

/// The monitor's states that can occur: attempts are counted from 1 to the maximum,
/// and no wait follows the last one.
pub open spec fn monitor_wf(s: MonitorState) -> bool {
    match s {
        MonitorState::Watching => true,
        MonitorState::Connecting { attempt } => 1 <= attempt <= MAX_RECONNECT_ATTEMPTS,
        MonitorState::BackingOff { attempt } => 1 <= attempt < MAX_RECONNECT_ATTEMPTS,
    }
}

/// The events a state waits for.
pub open spec fn monitor_accepts(s: MonitorState, e: MonitorEvent) -> bool {
    match s {
        MonitorState::Watching => e is Ticked,
        MonitorState::Connecting { .. } => e is Connected || e is ConnectFailed,
        MonitorState::BackingOff { .. } => e is Slept,
    }
}

/// One step of the monitor: the next state and the action, on an event the state waits for.
pub open spec fn monitor_next(s: MonitorState, e: MonitorEvent) -> (MonitorState, MonitorAction) {
    match (s, e) {
        (MonitorState::Watching, MonitorEvent::Ticked { closed }) => if closed {
            (MonitorState::Connecting { attempt: 1 }, MonitorAction::Connect { attempt: 1 })
        } else {
            (MonitorState::Watching, MonitorAction::WaitTick)
        },
        (MonitorState::Connecting { .. }, MonitorEvent::Connected) => {
            (MonitorState::Watching, MonitorAction::Install)
        },
        (MonitorState::Connecting { attempt }, MonitorEvent::ConnectFailed) => {
            if attempt < MAX_RECONNECT_ATTEMPTS {
                (MonitorState::BackingOff { attempt }, MonitorAction::Sleep { secs: (2 * attempt) as u64 })
            } else {
                (MonitorState::Watching, MonitorAction::WaitTick)
            }
        },
        (MonitorState::BackingOff { attempt }, MonitorEvent::Slept) => {
            (
                MonitorState::Connecting { attempt: (attempt + 1) as u64 },
                MonitorAction::Connect { attempt: (attempt + 1) as u64 },
            )
        },
        _ => (s, MonitorAction::WaitTick),
    }
}

impl MonitorState {
    /// The monitor before its first check.
    pub fn new() -> (s: MonitorState)
        ensures
            s == MonitorState::Watching,
    {
        MonitorState::Watching
    }

    /// Whether the monitor waits for `event` now.
    pub fn accepts(&self, event: MonitorEvent) -> (b: bool)
        ensures
            b == monitor_accepts(*self, event),
    {
        match self {
            MonitorState::Watching => match event {
                MonitorEvent::Ticked { .. } => true,
                _ => false,
            },
            MonitorState::Connecting { .. } => match event {
                MonitorEvent::Connected | MonitorEvent::ConnectFailed => true,
                _ => false,
            },
            MonitorState::BackingOff { .. } => match event {
                MonitorEvent::Slept => true,
                _ => false,
            },
        }
    }

    /// The next state and action of the monitor on `event`: a check that finds the
    /// connection closed starts attempt 1; a failed attempt before the last is
    /// followed by a wait of twice its number in seconds, then the next attempt;
    /// a success, or the last failure, returns to waiting for checks.
    pub fn next(self, event: MonitorEvent) -> (r: (MonitorState, MonitorAction))
        requires
            monitor_wf(self),
            monitor_accepts(self, event),
        ensures
            r == monitor_next(self, event),
            monitor_wf(r.0),
    {
        match (self, event) {
            (MonitorState::Watching, MonitorEvent::Ticked { closed }) => if closed {
                (MonitorState::Connecting { attempt: 1 }, MonitorAction::Connect { attempt: 1 })
            } else {
                (MonitorState::Watching, MonitorAction::WaitTick)
            },
            (MonitorState::Connecting { .. }, MonitorEvent::Connected) => {
                (MonitorState::Watching, MonitorAction::Install)
            },
            (MonitorState::Connecting { attempt }, MonitorEvent::ConnectFailed) => {
                if attempt < MAX_RECONNECT_ATTEMPTS {
                    (MonitorState::BackingOff { attempt }, MonitorAction::Sleep { secs: 2 * attempt })
                } else {
                    (MonitorState::Watching, MonitorAction::WaitTick)
                }
            },
            (MonitorState::BackingOff { attempt }, MonitorEvent::Slept) => {
                (
                    MonitorState::Connecting { attempt: attempt + 1 },
                    MonitorAction::Connect { attempt: attempt + 1 },
                )
            },
            _ => (self, MonitorAction::WaitTick),
        }
    }
}

/// An action that ends an outage: the monitor goes back to waiting for checks.
pub open spec fn ends_outage(a: MonitorAction) -> bool {
    a is WaitTick || a is Install
}

/// How many connection attempts the monitor makes on `events` before it next
/// goes back to waiting for checks.
pub open spec fn outage_connects(s: MonitorState, events: Seq<MonitorEvent>) -> nat
    decreases events.len(),
{
    if events.len() == 0 {
        0
    } else {
        let (next, action) = monitor_next(s, events[0]);
        if ends_outage(action) {
            0
        } else if action is Connect {
            1 + outage_connects(next, events.drop_first())
        } else {
            outage_connects(next, events.drop_first())
        }
    }
}

/// How many seconds the monitor waits between attempts on `events` before it next
/// goes back to waiting for checks.
pub open spec fn outage_sleep(s: MonitorState, events: Seq<MonitorEvent>) -> nat
    decreases events.len(),
{
    if events.len() == 0 {
        0
    } else {
        let (next, action) = monitor_next(s, events[0]);
        if ends_outage(action) {
            0
        } else {
            match action {
                MonitorAction::Sleep { secs } => (secs + outage_sleep(next, events.drop_first())) as nat,
                _ => outage_sleep(next, events.drop_first()),
            }
        }
    }
}

/// The attempts left in the current outage.
pub open spec fn attempts_left(s: MonitorState) -> nat {
    match s {
        MonitorState::Watching => MAX_RECONNECT_ATTEMPTS as nat,
        MonitorState::Connecting { attempt } => (MAX_RECONNECT_ATTEMPTS - attempt) as nat,
        MonitorState::BackingOff { attempt } => (MAX_RECONNECT_ATTEMPTS - attempt) as nat,
    }
}

/// The seconds of waiting that follow attempt `attempt` and those after it, if all fail.
pub open spec fn backoff_after(attempt: nat) -> nat
    decreases MAX_RECONNECT_ATTEMPTS - attempt,
{
    if attempt >= MAX_RECONNECT_ATTEMPTS {
        0
    } else {
        2 * attempt + backoff_after(attempt + 1)
    }
}

/// The seconds of waiting left in the current outage.
pub open spec fn sleep_left(s: MonitorState) -> nat {
    match s {
        MonitorState::Watching => backoff_after(1),
        MonitorState::Connecting { attempt } => backoff_after(attempt as nat),
        MonitorState::BackingOff { attempt } => backoff_after((attempt + 1) as nat),
    }
}

/// During one outage the monitor tries to connect at most `MAX_RECONNECT_ATTEMPTS`
/// times, and waits at most 2 + 4 + 6 + 8 = 20 seconds between attempts.
pub proof fn lemma_outage_bounded(s: MonitorState, events: Seq<MonitorEvent>)
    requires
        monitor_wf(s),
    ensures
        outage_connects(s, events) <= attempts_left(s) <= MAX_RECONNECT_ATTEMPTS,
        outage_sleep(s, events) <= sleep_left(s) <= 20,
    decreases events.len(),
{
    reveal_with_fuel(backoff_after, 6);
    if events.len() > 0 {
        let (next, action) = monitor_next(s, events[0]);
        assert(monitor_wf(next));
        lemma_outage_bounded(next, events.drop_first());
    }
}

/// Every state accepts each event of the kinds it waits for: a watching monitor any
/// check result, a connecting one success and failure, and a backing-off one the end
/// of its wait.
pub proof fn lemma_monitor_accepts_awaited_events(s: MonitorState)
    requires
        monitor_wf(s),
    ensures
        s is Watching ==> forall|closed: bool| #[trigger] monitor_accepts(s, MonitorEvent::Ticked { closed }),
        s is Connecting ==> monitor_accepts(s, MonitorEvent::Connected) && monitor_accepts(s, MonitorEvent::ConnectFailed),
        s is BackingOff ==> monitor_accepts(s, MonitorEvent::Slept),
{
}

/// A failed attempt before the last is followed, once the wait of twice its number
/// in seconds is over, by the next attempt: a run of failures goes through all
/// `MAX_RECONNECT_ATTEMPTS` attempts.
pub proof fn lemma_failure_leads_to_next_attempt(attempt: u64)
    requires
        1 <= attempt < MAX_RECONNECT_ATTEMPTS,
    ensures
        ({
            let (waiting, sleep) = monitor_next(MonitorState::Connecting { attempt }, MonitorEvent::ConnectFailed);
            &&& monitor_accepts(MonitorState::Connecting { attempt }, MonitorEvent::ConnectFailed)
            &&& waiting == MonitorState::BackingOff { attempt }
            &&& sleep == MonitorAction::Sleep { secs: (2 * attempt) as u64 }
            &&& monitor_accepts(waiting, MonitorEvent::Slept)
            &&& monitor_next(waiting, MonitorEvent::Slept) == (
                MonitorState::Connecting { attempt: (attempt + 1) as u64 },
                MonitorAction::Connect { attempt: (attempt + 1) as u64 },
            )
        }),
{
}

/// A check that finds the connection closed is accepted and starts attempt 1; one
/// that finds it open keeps watching.
pub proof fn lemma_check_starts_reconnection(closed: bool)
    ensures
        monitor_accepts(MonitorState::Watching, MonitorEvent::Ticked { closed }),
        monitor_next(MonitorState::Watching, MonitorEvent::Ticked { closed }) == if closed {
            (MonitorState::Connecting { attempt: 1 }, MonitorAction::Connect { attempt: 1 })
        } else {
            (MonitorState::Watching, MonitorAction::WaitTick)
        },
{
}

} // verus!
