use esp_ping::{
    Action, Configuration, Counters, Duration, EspPing, Event, Info, Ipv4Addr, Phase, PingError,
    PingSession, Reply, SessionConfig, SuccessProfile, Summary, Tracker, REQUEST_TTL, TASK_PRIO,
    TASK_STACK_SIZE,
};

/// A scripted engine: what it answers to each call, the events it reports
/// while the session runs, and a record of the calls it received.
struct Script {
    create: Result<u32, i32>,
    start: Result<(), i32>,
    events: Vec<Event>,
    stop: Result<(), i32>,
    destroy: Result<(), i32>,
    calls: Vec<&'static str>,
}

impl Script {
    fn clean(events: Vec<Event>) -> Script {
        Script {
            create: Ok(7),
            start: Ok(()),
            events,
            stop: Ok(()),
            destroy: Ok(()),
            calls: Vec::new(),
        }
    }
}

fn drive(
    session: &mut PingSession,
    engine: &mut Script,
    observer: &mut dyn FnMut(&Summary, &Reply),
) -> Result<Summary, PingError> {
    let mut pending = engine.events.clone().into_iter();
    let mut action = session.begin();
    loop {
        let ev = match action {
            Action::CreateSession(_) => {
                engine.calls.push("create");
                Event::Created(engine.create)
            }
            Action::Start(_) => {
                engine.calls.push("start");
                Event::Started(engine.start)
            }
            Action::Notify(summary, reply) => {
                observer(&summary, &reply);
                pending.next().expect("the engine ended without an end event")
            }
            Action::Wait => pending.next().expect("the engine ended without an end event"),
            Action::Stop(_) => {
                engine.calls.push("stop");
                Event::Stopped(engine.stop)
            }
            Action::Destroy(_) => {
                engine.calls.push("destroy");
                Event::Destroyed(engine.destroy)
            }
            Action::Finish(r) => return r,
            Action::Ignore => panic!("the session ignored an event"),
        };
        action = session.step(ev);
    }
}

fn counters(transmitted: u32, received: u32, duration_ms: u32) -> Counters {
    Counters { transmitted, received, duration_ms }
}

fn success(seqno: u16, c: Counters) -> Event {
    Event::Success(
        SuccessProfile {
            seqno,
            ttl: 64,
            addr: Ipv4Addr::new(10, 0, 0, 1),
            elapsed_ms: 12,
            recv_len: 64,
        },
        c,
    )
}

fn three_count() -> Configuration {
    Configuration {
        count: 3,
        interval: Duration::from_secs(1),
        timeout: Duration::from_secs(1),
        data_size: 56,
        tos: 0,
    }
}

#[test]
fn run_summary_two_successes_one_timeout() {
    let mut pinger = EspPing::new(0);
    let mut session = pinger.ping(Ipv4Addr::new(10, 0, 0, 1), &three_count());
    let mut engine = Script::clean(vec![
        success(0, counters(1, 1, 1005)),
        success(1, counters(2, 2, 2007)),
        Event::Timeout(counters(3, 2, 3010)),
        Event::End(counters(3, 2, 3010)),
    ]);
    let r = drive(&mut session, &mut engine, &mut |_s: &Summary, _r: &Reply| {});
    assert_eq!(
        r,
        Ok(Summary { transmitted: 3, received: 2, time: Duration::from_millis(3010) })
    );
    assert_eq!(engine.calls, vec!["create", "start", "stop", "destroy"]);
}

#[test]
fn observer_sees_replies_in_order() {
    let mut pinger = EspPing::new(0);
    let mut session = pinger.ping_details(Ipv4Addr::new(10, 0, 0, 1), &three_count());
    let mut engine = Script::clean(vec![
        success(0, counters(1, 1, 1000)),
        Event::Timeout(counters(2, 1, 2000)),
        success(2, counters(3, 2, 3000)),
        Event::End(counters(3, 2, 3000)),
    ]);
    let mut seen: Vec<Reply> = Vec::new();
    let r = drive(&mut session, &mut engine, &mut |_s: &Summary, reply: &Reply| seen.push(*reply));
    assert!(r.is_ok());
    assert_eq!(seen.len(), 3);
    assert!(matches!(seen[0], Reply::Success(Info { seqno: 0, .. })));
    assert_eq!(seen[1], Reply::Timeout);
    assert!(matches!(seen[2], Reply::Success(Info { seqno: 2, .. })));
}

#[test]
fn success_reply_carries_profile() {
    let mut pinger = EspPing::new(0);
    let mut session = pinger.ping_details(Ipv4Addr::new(10, 0, 0, 1), &three_count());
    let mut engine = Script::clean(vec![success(5, counters(1, 1, 12)), Event::End(counters(1, 1, 12))]);
    let mut seen: Vec<Reply> = Vec::new();
    drive(&mut session, &mut engine, &mut |_s: &Summary, reply: &Reply| seen.push(*reply)).unwrap();
    assert_eq!(
        seen,
        vec![Reply::Success(Info {
            addr: Ipv4Addr::new(10, 0, 0, 1),
            seqno: 5,
            ttl: 64,
            elapsed_time: Duration::from_millis(12),
            recv_len: 64,
        })]
    );
}

#[test]
fn creation_failure_reaches_no_further_call() {
    let mut pinger = EspPing::new(0);
    let mut session = pinger.ping(Ipv4Addr::new(10, 0, 0, 1), &three_count());
    let mut engine = Script::clean(vec![Event::End(counters(0, 0, 0))]);
    engine.create = Err(258);
    let r = drive(&mut session, &mut engine, &mut |_s: &Summary, _r: &Reply| {});
    assert_eq!(r, Err(PingError::SessionCreationFailed(258)));
    assert_eq!(engine.calls, vec!["create"]);
    assert_eq!(session.step(Event::Started(Ok(()))), Action::Ignore);
    assert_eq!(session.step(Event::Stopped(Ok(()))), Action::Ignore);
}

#[test]
fn null_handle_is_invalid() {
    let mut pinger = EspPing::new(0);
    let mut session = pinger.ping(Ipv4Addr::new(10, 0, 0, 1), &three_count());
    let mut engine = Script::clean(vec![]);
    engine.create = Ok(0);
    let r = drive(&mut session, &mut engine, &mut |_s: &Summary, _r: &Reply| {});
    assert_eq!(r, Err(PingError::InvalidHandle));
    assert_eq!(engine.calls, vec!["create"]);
}

#[test]
fn start_failure_tears_down() {
    let mut pinger = EspPing::new(0);
    let mut session = pinger.ping(Ipv4Addr::new(10, 0, 0, 1), &three_count());
    let mut engine = Script::clean(vec![]);
    engine.start = Err(3);
    let r = drive(&mut session, &mut engine, &mut |_s: &Summary, _r: &Reply| {});
    assert_eq!(r, Err(PingError::SessionStartFailed(3)));
    assert_eq!(engine.calls, vec!["create", "start", "stop", "destroy"]);
}

#[test]
fn stop_failure_still_destroys() {
    let mut pinger = EspPing::new(0);
    let mut session = pinger.ping(Ipv4Addr::new(10, 0, 0, 1), &three_count());
    let mut engine = Script::clean(vec![Event::End(counters(3, 3, 3000))]);
    engine.stop = Err(4);
    engine.destroy = Err(5);
    let r = drive(&mut session, &mut engine, &mut |_s: &Summary, _r: &Reply| {});
    assert_eq!(r, Err(PingError::SessionStopFailed(4)));
    assert_eq!(engine.calls, vec!["create", "start", "stop", "destroy"]);
}

#[test]
fn destroy_failure_is_reported() {
    let mut pinger = EspPing::new(0);
    let mut session = pinger.ping(Ipv4Addr::new(10, 0, 0, 1), &three_count());
    let mut engine = Script::clean(vec![Event::End(counters(3, 3, 3000))]);
    engine.destroy = Err(6);
    let r = drive(&mut session, &mut engine, &mut |_s: &Summary, _r: &Reply| {});
    assert_eq!(r, Err(PingError::SessionDestroyFailed(6)));
}

#[test]
fn wait_failure_tears_down() {
    let mut pinger = EspPing::new(0);
    let mut session = pinger.ping(Ipv4Addr::new(10, 0, 0, 1), &three_count());
    let mut engine = Script::clean(vec![Event::WaitFailed(263)]);
    let r = drive(&mut session, &mut engine, &mut |_s: &Summary, _r: &Reply| {});
    assert_eq!(r, Err(PingError::WaitFailed(263)));
    assert_eq!(engine.calls, vec!["create", "start", "stop", "destroy"]);
}

#[test]
fn observer_calls_match_transmitted() {
    let mut pinger = EspPing::new(1);
    let conf = Configuration { count: 4, ..three_count() };
    let mut session = pinger.ping_details(Ipv4Addr::new(8, 8, 8, 8), &conf);
    let mut engine = Script::clean(vec![
        Event::Timeout(counters(1, 0, 1000)),
        success(1, counters(2, 1, 2000)),
        success(2, counters(3, 2, 3000)),
        Event::Timeout(counters(4, 2, 4000)),
        Event::End(counters(4, 2, 4001)),
    ]);
    let mut calls: u32 = 0;
    let mut sums: Vec<Summary> = Vec::new();
    let r = drive(&mut session, &mut engine, &mut |s: &Summary, _r: &Reply| {
        calls += 1;
        sums.push(*s);
    })
    .unwrap();
    assert_eq!(calls, r.transmitted);
    assert!(r.received <= r.transmitted && r.transmitted <= conf.count);
    for (n, s) in sums.iter().enumerate() {
        assert!(s.transmitted as usize >= n + 1);
        if n > 0 {
            assert!(sums[n - 1].transmitted <= s.transmitted);
            assert!(sums[n - 1].received <= s.received);
        }
    }
    assert_eq!(sums[1], Summary { transmitted: 2, received: 1, time: Duration::from_millis(2000) });
}

#[test]
fn summary_run_never_notifies() {
    let mut pinger = EspPing::new(0);
    let mut session = pinger.ping(Ipv4Addr::new(10, 0, 0, 1), &three_count());
    let mut engine = Script::clean(vec![success(0, counters(1, 1, 10)), Event::End(counters(1, 1, 10))]);
    let mut calls: u32 = 0;
    drive(&mut session, &mut engine, &mut |_s: &Summary, _r: &Reply| calls += 1).unwrap();
    assert_eq!(calls, 0);
}

#[test]
fn session_waits_until_end() {
    let mut pinger = EspPing::new(0);
    let mut session = pinger.ping(Ipv4Addr::new(10, 0, 0, 1), &three_count());
    session.begin();
    assert_eq!(session.step(Event::Created(Ok(9))), Action::Start(9));
    assert!(session.tracker.active);
    assert_eq!(session.step(Event::Started(Ok(()))), Action::Wait);
    assert_eq!(session.step(Event::Timeout(counters(1, 0, 1000))), Action::Wait);
    assert_eq!(session.phase, Phase::Running);
    assert!(session.tracker.active);
    assert_eq!(session.step(Event::Destroyed(Ok(()))), Action::Ignore);
    assert_eq!(session.phase, Phase::Running);
    assert_eq!(session.step(Event::End(counters(1, 0, 1000))), Action::Stop(9));
    assert!(!session.tracker.active);
    assert_eq!(session.phase, Phase::Stopping);
}

#[test]
fn session_config_translation() {
    let mut pinger = EspPing::new(3);
    let conf = Configuration {
        count: 2,
        interval: Duration::from_millis(1500),
        timeout: Duration::from_millis(0x1_0000_0005),
        data_size: 100,
        tos: 7,
    };
    let ip = Ipv4Addr::new(192, 168, 1, 1);
    let session = pinger.ping(ip, &conf);
    let expected = SessionConfig {
        count: 2,
        interval_ms: 1500,
        timeout_ms: 5,
        data_size: 100,
        tos: 7,
        target_addr: ip,
        task_stack_size: 4096,
        task_prio: 2,
        interface: 3,
        ttl: 64,
    };
    assert_eq!(session.begin(), Action::CreateSession(expected));
    assert_eq!(pinger.session_config(ip, &conf), expected);
    assert_eq!((TASK_STACK_SIZE, TASK_PRIO, REQUEST_TTL), (4096, 2, 64));
}

#[test]
fn configuration_defaults() {
    let conf = Configuration::default();
    assert_eq!(conf.count, 5);
    assert_eq!(conf.interval, Duration::from_secs(1));
    assert_eq!(conf.timeout.as_millis(), 1000);
    assert_eq!(conf.data_size, 56);
    assert_eq!(conf.tos, 0);
}

#[test]
fn address_and_duration_values() {
    assert_eq!(Ipv4Addr::new(192, 168, 1, 1).bits, 0xC0A8_0101);
    assert_eq!(Duration::from_secs(3).as_millis(), 3000);
    assert_eq!(Summary::default(), Summary { transmitted: 0, received: 0, time: Duration::from_millis(0) });
}

#[test]
fn tracker_handlers() {
    let mut t = Tracker::new(false);
    assert!(!t.active);
    let p = SuccessProfile { seqno: 1, ttl: 60, addr: Ipv4Addr::new(1, 2, 3, 4), elapsed_ms: 9, recv_len: 32 };
    assert_eq!(t.on_ping_success(&p, &counters(2, 1, 1009)), None);
    assert_eq!(t.summary, Summary { transmitted: 2, received: 1, time: Duration::from_millis(1009) });
    let mut o = Tracker::new(true);
    o.active = true;
    assert_eq!(o.on_ping_timeout(&counters(1, 0, 1000)), Some(Reply::Timeout));
    assert_eq!(o.summary.transmitted, 1);
    assert!(o.active);
    o.on_ping_end(&counters(1, 0, 1001));
    assert!(!o.active);
    assert_eq!(o.summary.time, Duration::from_millis(1001));
}
