//! One client's streaming session: what to send on each timer tick and on
//! each message from the client, and when to end the connection.
use vstd::prelude::*;
use crate::overlay::OverlayData;

verus! {

/// Period of the refresh timer.
pub const REFRESH_INTERVAL_MS: u64 = 1000;

/// Period of the heartbeat timer.
pub const HEARTBEAT_INTERVAL_MS: u64 = 30_000;

/// A session whose last liveness proof is older than this is ended.
pub const LIVENESS_TIMEOUT_MS: u64 = 75_000;

/// State of a started session. Times are in milliseconds on a clock of the
/// caller's choosing.
#[derive(Debug, PartialEq, Eq)]
pub struct Session {
    /// The connection has been ended; nothing more is sent.
    pub closed: bool,
    /// What the client was last told: `None` when it was told the data is
    /// unavailable.
    pub last_sent: Option<OverlayData>,
    /// Time of the last liveness proof from the client.
    pub last_alive: u64,
}

/// What happened to a session.
#[derive(Debug, PartialEq, Eq)]
pub enum Event {
    /// The refresh timer fired; carries what a fresh poll returned.
    Refresh(Option<OverlayData>),
    /// The heartbeat timer fired at the given time.
    Heartbeat(u64),
    /// The client answered a liveness probe at the given time.
    Pong(u64),
    /// The client sent a liveness probe at the given time.
    Ping(u64),
    /// The client sent an application message; carries what a fresh poll
    /// returned.
    Message(Option<OverlayData>),
    /// The client closed the connection.
    Close,
    /// The connection broke with a protocol error.
    Fault,
}

/// What the session asks its connection to do.
#[derive(Debug, PartialEq, Eq)]
pub enum Action {
    /// Send this overlay to the client.
    Send(OverlayData),
    /// Tell the client that the data is unavailable.
    Unavailable,
    /// Send a liveness probe.
    Probe,
    /// Answer the client's liveness probe.
    Reply,
    /// Answer the client's close and end the connection.
    Close,
    /// End the connection.
    Stop,
    /// Nothing to do.
    Idle,
}

/// Field-wise equality of two overlays.
pub open spec fn same_overlay(a: OverlayData, b: OverlayData) -> bool {
    &&& a.tag@ == b.tag@
    &&& a.enemy_tag@ == b.enemy_tag@
    &&& a.score == b.score
    &&& a.enemy_score == b.enemy_score
    &&& a.diff == b.diff
    &&& a.last_diff == b.last_diff
    &&& a.race_left == b.race_left
}

/// Two poll results show the client the same thing.
pub open spec fn same_poll(a: Option<OverlayData>, b: Option<OverlayData>) -> bool {
    match (a, b) {
        (None, None) => true,
        (Some(x), Some(y)) => same_overlay(x, y),
        _ => false,
    }
}

/// What to send when the client was last told `last` and a poll gave `current`.
pub open spec fn push_for(last: Option<OverlayData>, current: Option<OverlayData>) -> Action {
    match (last, current) {
        (Some(_), None) => Action::Unavailable,
        (None, Some(d)) => Action::Send(d),
        (Some(a), Some(b)) => if same_overlay(a, b) {
            Action::Idle
        } else {
            Action::Send(b)
        },
        (None, None) => Action::Idle,
    }
}

/// The message that announces a poll result unconditionally.
pub open spec fn announce(current: Option<OverlayData>) -> Action {
    match current {
        Some(d) => Action::Send(d),
        None => Action::Unavailable,
    }
}

/// Time from `last` to `now`, taken as zero where the clock went back.
pub open spec fn elapsed(last: u64, now: u64) -> int {
    if now >= last {
        now - last
    } else {
        0
    }
}

/// The session right after it started, and its first message.
pub open spec fn start(initial: Option<OverlayData>, now: u64) -> (Session, Action) {
    (Session { closed: false, last_sent: initial, last_alive: now }, announce(initial))
}

/// One step of a session.
pub open spec fn next(s: Session, e: Event) -> (Session, Action) {
    if s.closed {
        (s, Action::Idle)
    } else {
        match e {
            Event::Refresh(c) => (Session { last_sent: c, ..s }, push_for(s.last_sent, c)),
            Event::Message(c) => (Session { last_sent: c, ..s }, push_for(s.last_sent, c)),
            Event::Heartbeat(t) => if elapsed(s.last_alive, t) > LIVENESS_TIMEOUT_MS {
                (Session { closed: true, ..s }, Action::Stop)
            } else {
                (s, Action::Probe)
            },
            Event::Pong(t) => (Session { last_alive: t, ..s }, Action::Idle),
            Event::Ping(t) => (Session { last_alive: t, ..s }, Action::Reply),
            Event::Close => (Session { closed: true, ..s }, Action::Close),
            Event::Fault => (Session { closed: true, ..s }, Action::Stop),
        }
    }
}

/// Copies an overlay field by field.
pub fn copy_overlay(d: &OverlayData) -> (r: OverlayData)
    ensures
        r == *d,
{
    OverlayData {
        tag: d.tag.clone(),
        enemy_tag: d.enemy_tag.clone(),
        score: d.score,
        enemy_score: d.enemy_score,
        diff: d.diff,
        last_diff: d.last_diff,
        race_left: d.race_left,
    }
}

/// Field-wise comparison of two overlays.
pub fn same_overlay_exec(a: &OverlayData, b: &OverlayData) -> (r: bool)
    ensures
        r == same_overlay(*a, *b),
{
    a.tag == b.tag && a.enemy_tag == b.enemy_tag && a.score == b.score && a.enemy_score
        == b.enemy_score && a.diff == b.diff && a.last_diff == b.last_diff && a.race_left
        == b.race_left
}

impl Session {
    /// Starts a session from a first poll at time `now`: the client is told
    /// its result, whether data was found or not.
    pub fn started(initial: Option<OverlayData>, now: u64) -> (r: (Session, Action))
        ensures
            r == start(initial, now),
    {
        let a = match &initial {
            Some(d) => Action::Send(copy_overlay(d)),
            None => Action::Unavailable,
        };
        (Session { closed: false, last_sent: initial, last_alive: now }, a)
    }

    /// The refresh timer fired and a poll gave `current`: pushes it only if
    /// it differs from what the client was last told, then remembers it.
    pub fn refresh(&mut self, current: Option<OverlayData>) -> (a: Action)
        ensures
            (*final(self), a) == next(*old(self), Event::Refresh(current)),
    {
        if self.closed {
            return Action::Idle;
        }
        let a = match (&self.last_sent, &current) {
            (Some(_), None) => Action::Unavailable,
            (None, Some(d)) => Action::Send(copy_overlay(d)),
            (Some(x), Some(y)) => if same_overlay_exec(x, y) {
                Action::Idle
            } else {
                Action::Send(copy_overlay(y))
            },
            (None, None) => Action::Idle,
        };
        self.last_sent = current;
        a
    }

    /// The heartbeat timer fired at `now`: ends the session if the client
    /// has given no liveness proof for longer than the timeout, else probes.
    pub fn hb(&mut self, now: u64) -> (a: Action)
        ensures
            (*final(self), a) == next(*old(self), Event::Heartbeat(now)),
    {
        if self.closed {
            Action::Idle
        } else if now >= self.last_alive && now - self.last_alive > LIVENESS_TIMEOUT_MS {
            self.closed = true;
            Action::Stop
        } else {
            Action::Probe
        }
    }

    /// Takes one event and says what to do about it.
    pub fn handle(&mut self, event: Event) -> (a: Action)
        ensures
            (*final(self), a) == next(*old(self), event),
    {
        match event {
            Event::Refresh(c) => self.refresh(c),
            Event::Message(c) => self.refresh(c),
            Event::Heartbeat(t) => self.hb(t),
            Event::Pong(t) => {
                if self.closed {
                    return Action::Idle;
                }
                self.last_alive = t;
                Action::Idle
            },
            Event::Ping(t) => {
                if self.closed {
                    return Action::Idle;
                }
                self.last_alive = t;
                Action::Reply
            },
            Event::Close => {
                if self.closed {
                    return Action::Idle;
                }
                self.closed = true;
                Action::Close
            },
            Event::Fault => {
                if self.closed {
                    return Action::Idle;
                }
                self.closed = true;
                Action::Stop
            },
        }
    }
}

} // verus!
