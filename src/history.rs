//! Sessions over many events: what a client is sent over a whole stream,
//! and when the stream is ended.
use vstd::prelude::*;
use crate::overlay::OverlayData;
use crate::session::{
    Action,
    Event,
    Session,
    LIVENESS_TIMEOUT_MS,
    next,
    push_for,
    same_overlay,
    same_poll,
    start,
};

verus! {

/// The state after feeding `evs` to `s` in order, and the actions taken.
pub open spec fn run(s: Session, evs: Seq<Event>) -> (Session, Seq<Action>)
    decreases evs.len(),
{
    if evs.len() == 0 {
        (s, Seq::empty())
    } else {
        let (s1, acts) = run(s, evs.drop_last());
        let (s2, a) = next(s1, evs.last());
        (s2, acts.push(a))
    }
}

/// A payload for the client: an overlay or the unavailable message.
pub open spec fn is_payload(a: Action) -> bool {
    a is Send || a is Unavailable
}

/// The payloads among `acts`, in order.
pub open spec fn sent(acts: Seq<Action>) -> Seq<Action>
    decreases acts.len(),
{
    if acts.len() == 0 {
        Seq::empty()
    } else if is_payload(acts.last()) {
        sent(acts.drop_last()).push(acts.last())
    } else {
        sent(acts.drop_last())
    }
}

/// Time of the latest liveness proof in `evs`, or `t0` if there is none.
pub open spec fn last_proof(t0: u64, evs: Seq<Event>) -> u64
    decreases evs.len(),
{
    if evs.len() == 0 {
        t0
    } else {
        match evs.last() {
            Event::Pong(t) => t,
            Event::Ping(t) => t,
            _ => last_proof(t0, evs.drop_last()),
        }
    }
}

/// `m` copies of a refresh that polled `c`.
pub open spec fn refreshes(c: Option<OverlayData>, m: nat) -> Seq<Event> {
    Seq::new(m, |_i: int| Event::Refresh(c))
}

/// The poll carried by a refresh or a message event.
pub open spec fn polled(e: Event) -> Option<Option<OverlayData>> {
    match e {
        Event::Refresh(c) => Some(c),
        Event::Message(c) => Some(c),
        _ => None,
    }
}

proof fn lemma_run_append(s: Session, x: Seq<Event>, y: Seq<Event>)
    ensures
        run(s, x + y).0 == run(run(s, x).0, y).0,
        run(s, x + y).1 == run(s, x).1 + run(run(s, x).0, y).1,
    decreases y.len(),
{
    if y.len() == 0 {
        assert(x + y =~= x);
        assert(run(s, x).1 + run(run(s, x).0, y).1 =~= run(s, x).1);
    } else {
        lemma_run_append(s, x, y.drop_last());
        assert((x + y).drop_last() =~= x + y.drop_last());
        assert((x + y).last() == y.last());
        let r = run(run(s, x).0, y.drop_last()).1;
        let a = next(run(run(s, x).0, y.drop_last()).0, y.last()).1;
        assert((run(s, x).1 + r).push(a) =~= run(s, x).1 + r.push(a));
    }
}

proof fn lemma_sent_append(x: Seq<Action>, y: Seq<Action>)
    ensures
        sent(x + y) == sent(x) + sent(y),
    decreases y.len(),
{
    if y.len() == 0 {
        assert(x + y =~= x);
        assert(sent(x) + sent(y) =~= sent(x));
    } else {
        lemma_sent_append(x, y.drop_last());
        assert((x + y).drop_last() =~= x + y.drop_last());
        assert((x + y).last() == y.last());
        if is_payload(y.last()) {
            assert((sent(x) + sent(y.drop_last())).push(y.last()) =~= sent(x) + sent(
                y.drop_last(),
            ).push(y.last()));
        }
    }
}

/// Refreshes that keep polling `c` push at most once, for the first of them.
proof fn lemma_repeated_refresh(s: Session, c: Option<OverlayData>, m: nat)
    requires
        !s.closed,
        m >= 1,
    ensures
        run(s, refreshes(c, m)).0 == (Session { last_sent: c, ..s }),
        sent(run(s, refreshes(c, m)).1) == sent(seq![push_for(s.last_sent, c)]),
    decreases m,
{
    let evs = refreshes(c, m);
    assert(evs.last() == Event::Refresh(c));
    if m == 1 {
        assert(evs.drop_last() =~= Seq::<Event>::empty());
        let a = push_for(s.last_sent, c);
        assert(run(s, evs.drop_last()) == (s, Seq::<Action>::empty()));
        assert(Seq::<Action>::empty().push(a) =~= seq![a]);
    } else {
        lemma_repeated_refresh(s, c, (m - 1) as nat);
        assert(evs.drop_last() =~= refreshes(c, (m - 1) as nat));
        let s1 = run(s, refreshes(c, (m - 1) as nat)).0;
        let acts = run(s, refreshes(c, (m - 1) as nat)).1;
        let a = push_for(c, c);
        match c {
            Some(d) => assert(same_overlay(d, d)),
            None => {},
        }
        assert(a is Idle);
        assert(next(s1, Event::Refresh(c)) == (Session { last_sent: c, ..s }, a));
        assert(run(s, evs) == (Session { last_sent: c, ..s }, acts.push(a)));
        assert(acts.push(a).drop_last() =~= acts);
        assert(acts.push(a).last() == a);
        assert(!is_payload(a));
    }
}

/// A stream whose every poll shows the client what it was first shown sends
/// exactly one payload, the first, however many events come.
pub proof fn lemma_steady_data_sends_once(
    initial: Option<OverlayData>,
    now: u64,
    evs: Seq<Event>,
)
    requires
        forall|i: int|
            0 <= i < evs.len() && polled(#[trigger] evs[i]) is Some ==> same_poll(
                polled(evs[i])->0,
                initial,
            ),
    ensures
        is_payload(start(initial, now).1),
        sent(run(start(initial, now).0, evs).1).len() == 0,
{
    lemma_steady_state(initial, now, evs);
}

proof fn lemma_steady_state(initial: Option<OverlayData>, now: u64, evs: Seq<Event>)
    requires
        forall|i: int|
            0 <= i < evs.len() && polled(#[trigger] evs[i]) is Some ==> same_poll(
                polled(evs[i])->0,
                initial,
            ),
    ensures
        same_poll(run(start(initial, now).0, evs).0.last_sent, initial),
        sent(run(start(initial, now).0, evs).1).len() == 0,
    decreases evs.len(),
{
    let s0 = start(initial, now).0;
    if evs.len() == 0 {
        match initial {
            Some(d) => assert(same_overlay(d, d)),
            None => {},
        }
    } else {
        let pre = evs.drop_last();
        assert forall|i: int|
            0 <= i < pre.len() && polled(#[trigger] pre[i]) is Some implies same_poll(
                polled(pre[i])->0,
                initial,
            ) by {
            assert(pre[i] == evs[i]);
        }
        lemma_steady_state(initial, now, pre);
        let e = evs.last();
        assert(e == evs[evs.len() - 1]);
        let acts = run(s0, pre).1;
        let a = next(run(s0, pre).0, e).1;
        assert(acts.push(a).drop_last() =~= acts);
    }
}

/// Data that goes from present to absent and back sends exactly three
/// payloads: the first overlay, the unavailable message, and the overlay
/// that came back.
pub proof fn lemma_outage_sends_three(
    a: OverlayData,
    b: OverlayData,
    now: u64,
    before: nat,
    absent: nat,
    after: nat,
)
    requires
        absent >= 1,
        after >= 1,
    ensures
        ({
            let (s0, first) = start(Some(a), now);
            let evs = refreshes(Some(a), before) + refreshes(None, absent) + refreshes(
                Some(b),
                after,
            );
            seq![first] + sent(run(s0, evs).1) == seq![
                Action::Send(a),
                Action::Unavailable,
                Action::Send(b),
            ]
        }),
{
    let s0 = start(Some(a), now).0;
    let x = refreshes(Some(a), before);
    let y = refreshes(None, absent);
    let z = refreshes(Some(b), after);
    let s1 = run(s0, x).0;
    let empty = Seq::<Action>::empty();
    assert(sent(seq![Action::Idle]) == empty) by {
        assert(seq![Action::Idle].drop_last() =~= empty);
        assert(seq![Action::Idle].last() == Action::Idle);
        assert(sent(empty) == empty);
    }
    assert(sent(seq![Action::Unavailable]) == seq![Action::Unavailable]) by {
        assert(seq![Action::Unavailable].drop_last() =~= empty);
        assert(seq![Action::Unavailable].last() == Action::Unavailable);
        assert(sent(empty) == empty);
        assert(empty.push(Action::Unavailable) =~= seq![Action::Unavailable]);
    }
    assert(sent(seq![Action::Send(b)]) == seq![Action::Send(b)]) by {
        assert(seq![Action::Send(b)].drop_last() =~= empty);
        assert(seq![Action::Send(b)].last() == Action::Send(b));
        assert(sent(empty) == empty);
        assert(empty.push(Action::Send(b)) =~= seq![Action::Send(b)]);
    }
    if before == 0 {
        assert(x =~= Seq::<Event>::empty());
    } else {
        lemma_repeated_refresh(s0, Some(a), before);
        assert(same_overlay(a, a));
        assert(push_for(Some(a), Some(a)) == Action::Idle);
    }
    assert(s1 == s0);
    assert(sent(run(s0, x).1) == empty);
    lemma_repeated_refresh(s1, None, absent);
    let s2 = run(s1, y).0;
    assert(sent(run(s1, y).1) == seq![Action::Unavailable]);
    lemma_repeated_refresh(s2, Some(b), after);
    assert(sent(run(s2, z).1) == seq![Action::Send(b)]);
    lemma_run_append(s0, x, y);
    lemma_run_append(s0, x + y, z);
    lemma_sent_append(run(s0, x).1, run(s1, y).1);
    assert(sent(run(s0, x + y).1) =~= seq![Action::Unavailable]);
    assert(run(s0, x + y).0 == s2);
    lemma_sent_append(run(s0, x + y).1, run(s2, z).1);
    assert(sent(run(s0, x + y + z).1) =~= seq![Action::Unavailable, Action::Send(b)]);
    assert(seq![Action::Send(a)] + seq![Action::Unavailable, Action::Send(b)] =~= seq![
        Action::Send(a),
        Action::Unavailable,
        Action::Send(b),
    ]);
}

/// The event at `i` is no heartbeat that comes later than the timeout after
/// the latest liveness proof before it.
pub open spec fn in_time(t0: u64, evs: Seq<Event>, i: int) -> bool {
    match evs[i] {
        Event::Heartbeat(t) => t <= last_proof(t0, evs.take(i)) + LIVENESS_TIMEOUT_MS,
        _ => true,
    }
}

/// An open session holds the time of the latest liveness proof.
proof fn lemma_liveness_tracked(initial: Option<OverlayData>, now: u64, evs: Seq<Event>)
    ensures
        !run(start(initial, now).0, evs).0.closed ==> run(start(initial, now).0, evs).0.last_alive
            == last_proof(now, evs),
    decreases evs.len(),
{
    if evs.len() > 0 {
        lemma_liveness_tracked(initial, now, evs.drop_last());
    }
}

/// A session whose client has given no liveness proof for longer than the
/// timeout is closed by the next heartbeat.
pub proof fn lemma_silent_session_closes(
    initial: Option<OverlayData>,
    now: u64,
    evs: Seq<Event>,
    t: u64,
)
    requires
        t > last_proof(now, evs) + LIVENESS_TIMEOUT_MS,
    ensures
        next(run(start(initial, now).0, evs).0, Event::Heartbeat(t)).0.closed,
{
    lemma_liveness_tracked(initial, now, evs);
}

/// A session whose client never closes it, and whose every heartbeat comes
/// within the timeout of the latest liveness proof (as when the client
/// answers every probe), stays open however long the stream runs.
pub proof fn lemma_responsive_session_stays_open(
    initial: Option<OverlayData>,
    now: u64,
    evs: Seq<Event>,
)
    requires
        forall|i: int| 0 <= i < evs.len() ==> !(#[trigger] evs[i] is Close) && !(evs[i] is Fault),
        forall|i: int| 0 <= i < evs.len() ==> #[trigger] in_time(now, evs, i),
    ensures
        !run(start(initial, now).0, evs).0.closed,
    decreases evs.len(),
{
    if evs.len() > 0 {
        let pre = evs.drop_last();
        let k = evs.len() - 1;
        assert forall|i: int| 0 <= i < pre.len() implies !(#[trigger] pre[i] is Close) && !(
        pre[i] is Fault) by {
            assert(pre[i] == evs[i]);
        }
        assert forall|i: int| 0 <= i < pre.len() implies #[trigger] in_time(now, pre, i) by {
            assert(in_time(now, evs, i));
            assert(pre[i] == evs[i]);
            assert(pre.take(i) =~= evs.take(i));
        }
        lemma_responsive_session_stays_open(initial, now, pre);
        lemma_liveness_tracked(initial, now, pre);
        assert(in_time(now, evs, k));
        assert(evs.take(k) =~= pre);
        assert(!(evs[k] is Close) && !(evs[k] is Fault));
    }
}

} // verus!
