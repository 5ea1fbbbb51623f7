//! Whole runs: what a session does over a sequence of engine events, and the
//! laws that hold of every run.
use vstd::prelude::*;

use crate::ping::{
    initial_session, next, session_config_of, summary_of, info_of, Action, Configuration,
    Counters, Event, Ipv4Addr, Phase, PingError, PingSession, Reply, Summary,
};

verus! {

/// The state after a session takes `evs` in order, and the actions it hands out.
pub open spec fn run(s: PingSession, evs: Seq<Event>) -> (PingSession, Seq<Action>)
    decreases evs.len(),
{
    if evs.len() == 0 {
        (s, Seq::empty())
    } else {
        let first = next(s, evs[0]);
        let rest = run(first.0, evs.subrange(1, evs.len() as int));
        (rest.0, seq![first.1] + rest.1)
    }
}

/// Whether the event reports one request: a reply or a timeout.
pub open spec fn is_reply(ev: Event) -> bool {
    ev is Success || ev is Timeout
}

/// The counters an event carries (zero for those that carry none).
pub open spec fn counters_of(ev: Event) -> Counters {
    match ev {
        Event::Success(_, c) => c,
        Event::Timeout(c) => c,
        Event::End(c) => c,
        _ => Counters { transmitted: 0, received: 0, duration_ms: 0 },
    }
}

/// What a running session hands out for a reply event.
pub open spec fn reply_action(observed: bool, ev: Event) -> Action {
    if !observed {
        Action::Wait
    } else {
        match ev {
            Event::Success(p, c) => Action::Notify(summary_of(c), Reply::Success(info_of(p))),
            Event::Timeout(c) => Action::Notify(summary_of(c), Reply::Timeout),
            _ => Action::Ignore,
        }
    }
}

/// The events of a run whose engine does everything asked of it: it creates
/// the session with handle `h`, starts it, reports `replies`, ends with the
/// counters `end`, then stops and destroys the session.
pub open spec fn clean_trace(h: u32, replies: Seq<Event>, end: Counters) -> Seq<Event> {
    seq![Event::Created(Ok(h)), Event::Started(Ok(()))] + replies + seq![
        Event::End(end),
        Event::Stopped(Ok(())),
        Event::Destroyed(Ok(())),
    ]
}

proof fn lemma_run_concat(s: PingSession, a: Seq<Event>, b: Seq<Event>)
    ensures
        run(s, a + b).0 == run(run(s, a).0, b).0,
        run(s, a + b).1 == run(s, a).1 + run(run(s, a).0, b).1,
    decreases a.len(),
{
    if a.len() == 0 {
        assert(a + b =~= b);
        assert(run(s, a).1 + run(s, b).1 =~= run(s, b).1);
    } else {
        let first = next(s, a[0]);
        let a1 = a.subrange(1, a.len() as int);
        assert((a + b)[0] == a[0]);
        assert((a + b).subrange(1, (a + b).len() as int) =~= a1 + b);
        lemma_run_concat(first.0, a1, b);
        assert(seq![first.1] + (run(first.0, a1).1 + run(run(first.0, a1).0, b).1) =~= (seq![
            first.1,
        ] + run(first.0, a1).1) + run(run(first.0, a1).0, b).1);
    }
}

proof fn lemma_finished_ignores(s: PingSession, evs: Seq<Event>)
    requires
        s.phase == Phase::Finished,
    ensures
        run(s, evs).0 == s,
        run(s, evs).1 =~= Seq::new(evs.len(), |i: int| Action::Ignore),
    decreases evs.len(),
{
    if evs.len() > 0 {
        lemma_finished_ignores(s, evs.subrange(1, evs.len() as int));
    }
}

proof fn lemma_running_replies(s: PingSession, replies: Seq<Event>)
    requires
        s.phase == Phase::Running,
        forall|i: int| 0 <= i < replies.len() ==> is_reply(#[trigger] replies[i]),
    ensures
        run(s, replies).0.phase == Phase::Running,
        run(s, replies).0.handle == s.handle,
        run(s, replies).0.failure == s.failure,
        run(s, replies).0.tracker.observed == s.tracker.observed,
        run(s, replies).1 =~= replies.map_values(|ev: Event| reply_action(s.tracker.observed, ev)),
    decreases replies.len(),
{
    if replies.len() > 0 {
        let rest = replies.subrange(1, replies.len() as int);
        assert(is_reply(replies[0]));
        assert forall|i: int| 0 <= i < rest.len() implies is_reply(#[trigger] rest[i]) by {
            assert(rest[i] == replies[i + 1]);
        }
        lemma_running_replies(next(s, replies[0]).0, rest);
    }
}

/// A run over a clean trace: the driver is told to start the session, then
/// once per reply, in order, what that reply calls for (with an observer: a
/// notification with the reply and the summary of that reply's counters), then
/// to stop and destroy the session, and the run returns the summary of the
/// end counters.
pub proof fn clean_run_actions(
    interface: u32,
    ip: Ipv4Addr,
    conf: Configuration,
    observed: bool,
    h: u32,
    replies: Seq<Event>,
    end: Counters,
)
    requires
        h != 0,
        forall|i: int| 0 <= i < replies.len() ==> is_reply(#[trigger] replies[i]),
    ensures
        run(initial_session(session_config_of(interface, ip, conf), observed), clean_trace(h, replies, end)).1
            == seq![Action::Start(h), Action::Wait] + replies.map_values(
            |ev: Event| reply_action(observed, ev),
        ) + seq![Action::Stop(h), Action::Destroy(h), Action::Finish(Ok(summary_of(end)))],
{
    reveal_with_fuel(run, 4);
    let s0 = initial_session(session_config_of(interface, ip, conf), observed);
    let head = seq![Event::Created(Ok(h)), Event::Started(Ok(()))];
    let tail = seq![Event::End(end), Event::Stopped(Ok(())), Event::Destroyed(Ok(()))];
    lemma_run_concat(s0, head + replies, tail);
    lemma_run_concat(s0, head, replies);
    let s2 = run(s0, head).0;
    assert(head.subrange(1, 2) =~= seq![Event::Started(Ok(()))]);
    assert(s2.phase == Phase::Running);
    lemma_running_replies(s2, replies);
    let s3 = run(s2, replies).0;
    assert(tail.subrange(1, 3) =~= seq![Event::Stopped(Ok(())), Event::Destroyed(Ok(()))]);
    assert(tail.subrange(1, 3).subrange(1, 2) =~= seq![Event::Destroyed(Ok(()))]);
    assert(seq![Event::Destroyed(Ok(()))].subrange(1, 1) =~= Seq::<Event>::empty());
    assert(head.subrange(1, 2).subrange(1, 1) =~= Seq::<Event>::empty());
    assert(run(s3, tail).1 =~= seq![Action::Stop(h), Action::Destroy(h), Action::Finish(Ok(summary_of(end)))]);
    assert(run(s0, head).1 =~= seq![Action::Start(h), Action::Wait]);
}

/// When the engine refuses to create the session, the run finishes at once
/// with `SessionCreationFailed`, and whatever the engine reports after that,
/// the driver is never told to start, stop or destroy a session.
pub proof fn creation_failure_reaches_no_engine(
    interface: u32,
    ip: Ipv4Addr,
    conf: Configuration,
    observed: bool,
    code: i32,
    later: Seq<Event>,
)
    ensures
        ({
            let acts = run(
                initial_session(session_config_of(interface, ip, conf), observed),
                seq![Event::Created(Err(code))] + later,
            ).1;
            &&& acts.len() == later.len() + 1
            &&& acts[0] == Action::Finish(Err(PingError::SessionCreationFailed(code)))
            &&& forall|i: int| 1 <= i < acts.len() ==> acts[i] == Action::Ignore
        }),
{
    let s0 = initial_session(session_config_of(interface, ip, conf), observed);
    let evs = seq![Event::Created(Err(code))] + later;
    assert(evs[0] == Event::Created(Err(code)));
    assert(evs.subrange(1, evs.len() as int) =~= later);
    lemma_finished_ignores(next(s0, evs[0]).0, later);
}

/// Whether counters stay within a run of `count` requests.
pub open spec fn within_count(c: Counters, count: u32) -> bool {
    c.received <= c.transmitted <= count
}

/// Whether a summary that an action hands out stays within `count` requests.
pub open spec fn action_within(a: Action, count: u32) -> bool {
    match a {
        Action::Finish(Ok(sum)) => sum.received <= sum.transmitted <= count,
        Action::Notify(sum, _) => sum.received <= sum.transmitted <= count,
        _ => true,
    }
}

/// The summary that a notification hands to the observer.
pub open spec fn notified_summary(a: Action) -> Summary {
    match a {
        Action::Notify(sum, _) => sum,
        _ => summary_of(Counters { transmitted: 0, received: 0, duration_ms: 0 }),
    }
}

proof fn lemma_run_within(s: PingSession, evs: Seq<Event>, count: u32)
    requires
        s.tracker.summary.received <= s.tracker.summary.transmitted <= count,
        forall|i: int| 0 <= i < evs.len() ==> within_count(counters_of(#[trigger] evs[i]), count),
    ensures
        run(s, evs).0.tracker.summary.received <= run(s, evs).0.tracker.summary.transmitted <= count,
        forall|i: int| 0 <= i < run(s, evs).1.len() ==> action_within(#[trigger] run(s, evs).1[i], count),
    decreases evs.len(),
{
    if evs.len() > 0 {
        let first = next(s, evs[0]);
        let rest = evs.subrange(1, evs.len() as int);
        assert(within_count(counters_of(evs[0]), count));
        assert forall|i: int| 0 <= i < rest.len() implies within_count(counters_of(#[trigger] rest[i]), count) by {
            assert(rest[i] == evs[i + 1]);
        }
        lemma_run_within(first.0, rest, count);
        let acts = run(s, evs).1;
        assert forall|i: int| 0 <= i < acts.len() implies action_within(#[trigger] acts[i], count) by {
            if i > 0 {
                assert(acts[i] == run(first.0, rest).1[i - 1]);
            }
        }
    }
}

/// Whatever the engine reports, as long as every counter it reports stays
/// within the configured count (received ≤ transmitted ≤ count), every
/// summary a run hands out, to the observer or as its result, has
/// received ≤ transmitted ≤ count.
pub proof fn summary_within_count(
    interface: u32,
    ip: Ipv4Addr,
    conf: Configuration,
    observed: bool,
    evs: Seq<Event>,
)
    requires
        forall|i: int| 0 <= i < evs.len() ==> within_count(counters_of(#[trigger] evs[i]), conf.count),
    ensures
        forall|i: int|
            0 <= i < run(initial_session(session_config_of(interface, ip, conf), observed), evs).1.len()
                ==> action_within(
                #[trigger] run(initial_session(session_config_of(interface, ip, conf), observed), evs).1[i],
                conf.count,
            ),
{
    lemma_run_within(initial_session(session_config_of(interface, ip, conf), observed), evs, conf.count);
}

/// In a run with an observer over a clean trace whose end counters report
/// one request per reply event, the observer is invoked exactly as many times
/// as the returned summary says were transmitted: the actions in positions
/// 2 up to 2 + transmitted are the notifications, and no other is.
pub proof fn observer_calls_equal_transmitted(
    interface: u32,
    ip: Ipv4Addr,
    conf: Configuration,
    h: u32,
    replies: Seq<Event>,
    end: Counters,
)
    requires
        h != 0,
        forall|i: int| 0 <= i < replies.len() ==> is_reply(#[trigger] replies[i]),
        end.transmitted == replies.len(),
    ensures
        ({
            let acts = run(
                initial_session(session_config_of(interface, ip, conf), true),
                clean_trace(h, replies, end),
            ).1;
            &&& acts.last() == Action::Finish(Ok(summary_of(end)))
            &&& summary_of(end).transmitted == end.transmitted
            &&& forall|i: int|
                0 <= i < acts.len() ==> (#[trigger] acts[i] is Notify <==> 2 <= i < 2 + end.transmitted)
        }),
{
    clean_run_actions(interface, ip, conf, true, h, replies, end);
    let acts = run(initial_session(session_config_of(interface, ip, conf), true), clean_trace(h, replies, end)).1;
    let n = replies.len() as int;
    assert forall|i: int| 0 <= i < acts.len() implies (#[trigger] acts[i] is Notify <==> 2 <= i < 2
        + end.transmitted) by {
        if 2 <= i < 2 + n {
            assert(acts[i] == reply_action(true, replies[i - 2]));
            assert(is_reply(replies[i - 2]));
        }
    }
}

/// In a run with an observer over a clean trace whose engine counts
/// cumulatively (the k-th reply reports at least k requests, and no counter
/// goes down), the summary handed to the observer on its N-th invocation has
/// transmitted ≥ N, and transmitted and received never decrease from one
/// invocation to the next.
pub proof fn notified_summaries_grow(
    interface: u32,
    ip: Ipv4Addr,
    conf: Configuration,
    h: u32,
    replies: Seq<Event>,
    end: Counters,
)
    requires
        h != 0,
        forall|i: int| 0 <= i < replies.len() ==> is_reply(#[trigger] replies[i]),
        forall|k: int| 0 <= k < replies.len() ==> counters_of(#[trigger] replies[k]).transmitted >= k + 1,
        forall|j: int, k: int|
            0 <= j < k < replies.len() ==> counters_of(#[trigger] replies[j]).transmitted <= counters_of(
                #[trigger] replies[k],
            ).transmitted && counters_of(replies[j]).received <= counters_of(replies[k]).received,
    ensures
        ({
            let acts = run(
                initial_session(session_config_of(interface, ip, conf), true),
                clean_trace(h, replies, end),
            ).1;
            &&& forall|n: int| 1 <= n <= replies.len() ==> #[trigger] acts[1 + n] is Notify
                && notified_summary(acts[1 + n]).transmitted >= n
            &&& forall|m: int, n: int|
                1 <= m < n <= replies.len() ==> notified_summary(#[trigger] acts[1 + m]).transmitted
                    <= notified_summary(#[trigger] acts[1 + n]).transmitted && notified_summary(
                    acts[1 + m],
                ).received <= notified_summary(acts[1 + n]).received
        }),
{
    clean_run_actions(interface, ip, conf, true, h, replies, end);
    let acts = run(initial_session(session_config_of(interface, ip, conf), true), clean_trace(h, replies, end)).1;
    assert forall|n: int| 1 <= n <= replies.len() implies #[trigger] acts[1 + n] is Notify
        && notified_summary(acts[1 + n]).transmitted >= n by {
        assert(acts[1 + n] == reply_action(true, replies[n - 1]));
        assert(is_reply(replies[n - 1]));
        assert(counters_of(replies[n - 1]).transmitted >= n);
    }
    assert forall|m: int, n: int| 1 <= m < n <= replies.len() implies notified_summary(
        #[trigger] acts[1 + m],
    ).transmitted <= notified_summary(#[trigger] acts[1 + n]).transmitted && notified_summary(
        acts[1 + m],
    ).received <= notified_summary(acts[1 + n]).received by {
        assert(acts[1 + m] == reply_action(true, replies[m - 1]));
        assert(acts[1 + n] == reply_action(true, replies[n - 1]));
        assert(is_reply(replies[m - 1]));
        assert(is_reply(replies[n - 1]));
        assert(counters_of(replies[m - 1]).transmitted <= counters_of(replies[n - 1]).transmitted);
    }
}

/// A running session stops waiting for events only on the end event, which
/// marks the session inactive and asks to stop it, or on a failure of the
/// wait; on every other event it keeps waiting, still active.
pub proof fn waits_until_end(s: PingSession, ev: Event)
    requires
        s.phase == Phase::Running,
        s.tracker.active,
    ensures
        next(s, ev).0.phase != Phase::Running ==> (ev is End && !next(s, ev).0.tracker.active
            && next(s, ev).1 == Action::Stop(s.handle)) || ev is WaitFailed,
        next(s, ev).0.phase == Phase::Running ==> next(s, ev).0.tracker.active,
{
}

} // verus!
