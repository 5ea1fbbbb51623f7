use vstd::prelude::*;

verus! {

/// A span of time, in whole milliseconds.
#[derive(Clone, Copy, Debug, PartialEq, Eq, Structural)]
pub struct Duration {
    pub millis: u64,
}

impl Duration {
    pub fn from_millis(millis: u64) -> (r: Duration)
        ensures
            r.millis == millis,
    {
        Duration { millis }
    }

    pub fn from_secs(secs: u64) -> (r: Duration)
        requires
            secs * 1000 <= u64::MAX,
        ensures
            r.millis == secs * 1000,
    {
        Duration { millis: secs * 1000 }
    }

    pub fn as_millis(&self) -> (r: u64)
        ensures
            r == self.millis,
    {
        self.millis
    }
}

/// An IPv4 address, as its 32 bits in network order (first octet highest).
#[derive(Clone, Copy, Debug, PartialEq, Eq, Structural)]
pub struct Ipv4Addr {
    pub bits: u32,
}

impl Ipv4Addr {
    pub fn new(a: u8, b: u8, c: u8, d: u8) -> (r: Ipv4Addr)
        ensures
            r.bits == a as int * 0x1000000 + b as int * 0x10000 + c as int * 0x100 + d as int,
    {
        let bits: u32 = (a as u32) * 0x1000000 + (b as u32) * 0x10000 + (c as u32) * 0x100 + (d as u32);
        Ipv4Addr { bits }
    }
}

/// Parameters of one ping run.
#[derive(Clone, Copy, Debug, PartialEq, Eq, Structural)]
pub struct Configuration {
    /// Number of echo requests to send.
    pub count: u32,
    /// Pause between two requests.
    pub interval: Duration,
    /// How long to wait for each reply.
    pub timeout: Duration,
    /// Payload size in bytes.
    pub data_size: u32,
    /// Type-of-service byte.
    pub tos: u8,
}

impl Default for Configuration {
    fn default() -> (r: Configuration)
        ensures
            r.count == 5,
            r.interval.millis == 1000,
            r.timeout.millis == 1000,
            r.data_size == 56,
            r.tos == 0,
    {
        Configuration {
            count: 5,
            interval: Duration::from_secs(1),
            timeout: Duration::from_secs(1),
            data_size: 56,
            tos: 0,
        }
    }
}

/// One received echo reply.
#[derive(Clone, Copy, Debug, PartialEq, Eq, Structural)]
pub struct Info {
    pub addr: Ipv4Addr,
    pub seqno: u32,
    pub ttl: u8,
    pub elapsed_time: Duration,
    pub recv_len: u32,
}

/// What became of one echo request.
#[derive(Clone, Copy, Debug, PartialEq, Eq, Structural)]
pub enum Reply {
    Timeout,
    Success(Info),
}

/// Running or final statistics of a run.
#[derive(Clone, Copy, Debug, PartialEq, Eq, Structural)]
pub struct Summary {
    pub transmitted: u32,
    pub received: u32,
    pub time: Duration,
}

impl Default for Summary {
    fn default() -> (r: Summary)
        ensures
            r.transmitted == 0,
            r.received == 0,
            r.time.millis == 0,
    {
        Summary { transmitted: 0, received: 0, time: Duration { millis: 0 } }
    }
}

/// A pinger bound to one network interface.
#[derive(Debug, Default)]
pub struct EspPing(pub u32);

impl EspPing {
    pub fn new(interface_index: u32) -> (r: EspPing)
        ensures
            r.0 == interface_index,
    {
        EspPing(interface_index)
    }
}

/// The engine's cumulative counters, as read during one engine event.
#[derive(Clone, Copy, Debug, PartialEq, Eq, Structural)]
pub struct Counters {
    /// Requests sent so far.
    pub transmitted: u32,
    /// Replies received so far.
    pub received: u32,
    /// Total time of the session so far, in milliseconds.
    pub duration_ms: u32,
}

/// The profile fields that the engine holds for one received reply.
/// A field the engine could not report stays at zero.
#[derive(Clone, Copy, Debug, PartialEq, Eq, Structural)]
pub struct SuccessProfile {
    pub seqno: u16,
    pub ttl: u8,
    pub addr: Ipv4Addr,
    pub elapsed_ms: u32,
    pub recv_len: u32,
}

/// The engine's own session configuration, built from a [`Configuration`].
#[derive(Clone, Copy, Debug, PartialEq, Eq, Structural)]
pub struct SessionConfig {
    pub count: u32,
    pub interval_ms: u32,
    pub timeout_ms: u32,
    pub data_size: u32,
    pub tos: u32,
    pub target_addr: Ipv4Addr,
    pub task_stack_size: u32,
    pub task_prio: u32,
    pub interface: u32,
    pub ttl: u32,
}

/// Stack size of the engine's worker task.
pub const TASK_STACK_SIZE: u32 = 4096;

/// Priority of the engine's worker task.
pub const TASK_PRIO: u32 = 2;

/// Time-to-live of the echo requests.
pub const REQUEST_TTL: u32 = 64;

/// Why a run failed; each engine failure carries the engine's error code.
#[derive(Clone, Copy, Debug, PartialEq, Eq, Structural)]
pub enum PingError {
    /// The engine rejected the configuration.
    SessionCreationFailed(i32),
    /// The engine reported success but gave no usable handle.
    InvalidHandle,
    SessionStartFailed(i32),
    SessionStopFailed(i32),
    SessionDestroyFailed(i32),
    /// Waiting for the end of the session failed.
    WaitFailed(i32),
}

/// Milliseconds as the engine takes them: the low 32 bits.
pub open spec fn engine_millis(d: Duration) -> u32 {
    (d.millis % 0x1_0000_0000) as u32
}

/// The engine configuration for a run against `ip` on interface `interface`.
pub open spec fn session_config_of(interface: u32, ip: Ipv4Addr, conf: Configuration) -> SessionConfig {
    SessionConfig {
        count: conf.count,
        interval_ms: engine_millis(conf.interval),
        timeout_ms: engine_millis(conf.timeout),
        data_size: conf.data_size,
        tos: conf.tos as u32,
        target_addr: ip,
        task_stack_size: TASK_STACK_SIZE,
        task_prio: TASK_PRIO,
        interface,
        ttl: REQUEST_TTL,
    }
}

/// The summary that the engine's counters stand for.
pub open spec fn summary_of(c: Counters) -> Summary {
    Summary {
        transmitted: c.transmitted,
        received: c.received,
        time: Duration { millis: c.duration_ms as u64 },
    }
}

/// The reply record for a received echo reply.
pub open spec fn info_of(p: SuccessProfile) -> Info {
    Info {
        addr: p.addr,
        seqno: p.seqno as u32,
        ttl: p.ttl,
        elapsed_time: Duration { millis: p.elapsed_ms as u64 },
        recv_len: p.recv_len,
    }
}

fn low_millis(d: Duration) -> (r: u32)
    ensures
        r == engine_millis(d),
{
    (d.millis % 0x1_0000_0000) as u32
}

impl EspPing {
    /// Translates a run's parameters into the engine's configuration.
    pub fn session_config(&self, ip: Ipv4Addr, conf: &Configuration) -> (r: SessionConfig)
        ensures
            r == session_config_of(self.0, ip, *conf),
    {
        SessionConfig {
            count: conf.count,
            interval_ms: low_millis(conf.interval),
            timeout_ms: low_millis(conf.timeout),
            data_size: conf.data_size,
            tos: conf.tos as u32,
            target_addr: ip,
            task_stack_size: TASK_STACK_SIZE,
            task_prio: TASK_PRIO,
            interface: self.0,
            ttl: REQUEST_TTL,
        }
    }
}

/// Overwrites all of `summary` with the engine's cumulative counters.
pub fn update_summary(summary: &mut Summary, counters: &Counters)
    ensures
        *final(summary) == summary_of(*counters),
{
    summary.transmitted = counters.transmitted;
    summary.received = counters.received;
    summary.time = Duration::from_millis(counters.duration_ms as u64);
}

/// Per-run state: the running summary, whether the session is active, and
/// whether an observer wants each reply.
#[derive(Clone, Copy, Debug, PartialEq, Eq, Structural)]
pub struct Tracker {
    pub summary: Summary,
    pub active: bool,
    pub observed: bool,
}

impl Tracker {
    /// A tracker with an empty summary and an inactive session.
    pub fn new(observed: bool) -> (r: Tracker)
        ensures
            r.summary == summary_of(Counters { transmitted: 0, received: 0, duration_ms: 0 }),
            !r.active,
            r.observed == observed,
    {
        Tracker { summary: Summary::default(), active: false, observed }
    }

    /// Handles a received reply: the summary takes the engine's counters, and
    /// the reply for the observer comes back if there is one.
    pub fn on_ping_success(&mut self, profile: &SuccessProfile, counters: &Counters) -> (r: Option<Reply>)
        ensures
            final(self).summary == summary_of(*counters),
            final(self).active == old(self).active,
            final(self).observed == old(self).observed,
            r == (if old(self).observed { Some(Reply::Success(info_of(*profile))) } else { None::<Reply> }),
    {
        update_summary(&mut self.summary, counters);
        if self.observed {
            Some(Reply::Success(Info {
                addr: profile.addr,
                seqno: profile.seqno as u32,
                ttl: profile.ttl,
                elapsed_time: Duration::from_millis(profile.elapsed_ms as u64),
                recv_len: profile.recv_len,
            }))
        } else {
            None
        }
    }

    /// Handles a request that timed out: as a reply, without its record.
    pub fn on_ping_timeout(&mut self, counters: &Counters) -> (r: Option<Reply>)
        ensures
            final(self).summary == summary_of(*counters),
            final(self).active == old(self).active,
            final(self).observed == old(self).observed,
            r == (if old(self).observed { Some(Reply::Timeout) } else { None::<Reply> }),
    {
        update_summary(&mut self.summary, counters);
        if self.observed {
            Some(Reply::Timeout)
        } else {
            None
        }
    }

    /// Handles the end of the session: a last update, then the session is
    /// no longer active.
    pub fn on_ping_end(&mut self, counters: &Counters)
        ensures
            final(self).summary == summary_of(*counters),
            !final(self).active,
            final(self).observed == old(self).observed,
    {
        update_summary(&mut self.summary, counters);
        self.active = false;
    }
}

/// Where a run stands.
#[derive(Clone, Copy, Debug, PartialEq, Eq, Structural)]
pub enum Phase {
    /// Waiting for the engine to create the session.
    Creating,
    /// Waiting for the engine to start the session.
    Starting,
    /// The engine is sending requests and reporting replies.
    Running,
    /// Waiting for the engine to stop the session.
    Stopping,
    /// Waiting for the engine to destroy the session.
    Destroying,
    /// The run is over; the outcome has been handed out.
    Finished,
}

/// What the engine reported, in answer to an action or on its own.
#[derive(Clone, Copy, Debug, PartialEq, Eq)]
pub enum Event {
    /// Session creation: the handle (zero for none) or the engine's error.
    Created(Result<u32, i32>),
    Started(Result<(), i32>),
    /// A reply was received.
    Success(SuccessProfile, Counters),
    /// A request timed out.
    Timeout(Counters),
    /// The session ended; the engine sends no more events.
    End(Counters),
    /// Waiting for the end of the session failed.
    WaitFailed(i32),
    Stopped(Result<(), i32>),
    Destroyed(Result<(), i32>),
}

/// What the driver of a run does next.
#[derive(Clone, Copy, Debug, PartialEq, Eq)]
pub enum Action {
    /// Ask the engine for a session with this configuration.
    CreateSession(SessionConfig),
    /// Start the session with this handle.
    Start(u32),
    /// Block until the engine reports the next event.
    Wait,
    /// Invoke the observer with this summary and reply, then wait.
    Notify(Summary, Reply),
    /// Stop the session with this handle.
    Stop(u32),
    /// Destroy the session with this handle.
    Destroy(u32),
    /// Return this outcome to the caller; the run is over.
    Finish(Result<Summary, PingError>),
    /// The event was not expected now and changed nothing.
    Ignore,
}

/// One ping run: the bridge between the engine's events and a blocking caller.
#[derive(Clone, Copy, Debug, PartialEq, Eq, Structural)]
pub struct PingSession {
    pub phase: Phase,
    /// The configuration handed to the engine.
    pub config: SessionConfig,
    /// The engine's handle, once it has given one.
    pub handle: u32,
    pub tracker: Tracker,
    /// The first failure of the run, reported once the session is torn down.
    pub failure: Option<PingError>,
}

/// A new run, before the engine has been asked for a session.
pub open spec fn initial_session(config: SessionConfig, observed: bool) -> PingSession {
    PingSession {
        phase: Phase::Creating,
        config,
        handle: 0,
        tracker: Tracker {
            summary: summary_of(Counters { transmitted: 0, received: 0, duration_ms: 0 }),
            active: false,
            observed,
        },
        failure: None,
    }
}

/// The earlier failure if there is one, else the one this result reports.
pub open spec fn first_failure(failure: Option<PingError>, r: Result<(), i32>, stopping: bool) -> Option<PingError> {
    match failure {
        Some(e) => Some(e),
        None => match r {
            Ok(_) => None,
            Err(code) => Some(
                if stopping { PingError::SessionStopFailed(code) } else { PingError::SessionDestroyFailed(code) },
            ),
        },
    }
}

/// The outcome of a run with this failure, or else this summary.
pub open spec fn outcome(failure: Option<PingError>, summary: Summary) -> Result<Summary, PingError> {
    match failure {
        Some(e) => Err(e),
        None => Ok(summary),
    }
}

/// The session with its summary replaced by the engine's counters.
pub open spec fn with_counters(s: PingSession, c: Counters) -> PingSession {
    PingSession { tracker: Tracker { summary: summary_of(c), ..s.tracker }, ..s }
}

/// The session in `phase` with `failure`, and the stop it asks for.
pub open spec fn tear_down(s: PingSession, e: PingError) -> (PingSession, Action) {
    (PingSession { phase: Phase::Stopping, failure: Some(e), ..s }, Action::Stop(s.handle))
}

/// What a run does on an event: its next state, and the driver's next action.
pub open spec fn next(s: PingSession, ev: Event) -> (PingSession, Action) {
    match (s.phase, ev) {
        (Phase::Creating, Event::Created(Err(code))) => (
            PingSession { phase: Phase::Finished, failure: Some(PingError::SessionCreationFailed(code)), ..s },
            Action::Finish(Err(PingError::SessionCreationFailed(code))),
        ),
        (Phase::Creating, Event::Created(Ok(h))) => if h == 0 {
            (
                PingSession { phase: Phase::Finished, failure: Some(PingError::InvalidHandle), ..s },
                Action::Finish(Err(PingError::InvalidHandle)),
            )
        } else {
            (
                PingSession {
                    phase: Phase::Starting,
                    handle: h,
                    tracker: Tracker { active: true, ..s.tracker },
                    ..s
                },
                Action::Start(h),
            )
        },
        (Phase::Starting, Event::Started(Ok(_))) => (PingSession { phase: Phase::Running, ..s }, Action::Wait),
        (Phase::Starting, Event::Started(Err(code))) => tear_down(s, PingError::SessionStartFailed(code)),
        (Phase::Running, Event::Success(p, c)) => (
            with_counters(s, c),
            if s.tracker.observed { Action::Notify(summary_of(c), Reply::Success(info_of(p))) } else { Action::Wait },
        ),
        (Phase::Running, Event::Timeout(c)) => (
            with_counters(s, c),
            if s.tracker.observed { Action::Notify(summary_of(c), Reply::Timeout) } else { Action::Wait },
        ),
        (Phase::Running, Event::End(c)) => (
            PingSession {
                phase: Phase::Stopping,
                tracker: Tracker { summary: summary_of(c), active: false, ..s.tracker },
                ..s
            },
            Action::Stop(s.handle),
        ),
        (Phase::Running, Event::WaitFailed(code)) => tear_down(s, PingError::WaitFailed(code)),
        (Phase::Stopping, Event::Stopped(r)) => (
            PingSession { phase: Phase::Destroying, failure: first_failure(s.failure, r, true), ..s },
            Action::Destroy(s.handle),
        ),
        (Phase::Destroying, Event::Destroyed(r)) => (
            PingSession { phase: Phase::Finished, failure: first_failure(s.failure, r, false), ..s },
            Action::Finish(outcome(first_failure(s.failure, r, false), s.tracker.summary)),
        ),
        _ => (s, Action::Ignore),
    }
}

fn first_failure_of(failure: Option<PingError>, r: Result<(), i32>, stopping: bool) -> (f: Option<PingError>)
    ensures
        f == first_failure(failure, r, stopping),
{
    match failure {
        Some(e) => Some(e),
        None => match r {
            Ok(_) => None,
            Err(code) => if stopping {
                Some(PingError::SessionStopFailed(code))
            } else {
                Some(PingError::SessionDestroyFailed(code))
            },
        },
    }
}

impl PingSession {
    /// The first action of a run: ask the engine for a session.
    pub fn begin(&self) -> (a: Action)
        ensures
            a == Action::CreateSession(self.config),
    {
        Action::CreateSession(self.config)
    }

    /// Takes one event of the engine and says what the driver does next.
    pub fn step(&mut self, ev: Event) -> (a: Action)
        ensures
            (*final(self), a) == next(*old(self), ev),
    {
        match (self.phase, ev) {
            (Phase::Creating, Event::Created(Err(code))) => {
                self.phase = Phase::Finished;
                self.failure = Some(PingError::SessionCreationFailed(code));
                Action::Finish(Err(PingError::SessionCreationFailed(code)))
            },
            (Phase::Creating, Event::Created(Ok(h))) => {
                if h == 0 {
                    self.phase = Phase::Finished;
                    self.failure = Some(PingError::InvalidHandle);
                    Action::Finish(Err(PingError::InvalidHandle))
                } else {
                    self.phase = Phase::Starting;
                    self.handle = h;
                    self.tracker.active = true;
                    Action::Start(h)
                }
            },
            (Phase::Starting, Event::Started(Ok(_))) => {
                self.phase = Phase::Running;
                Action::Wait
            },
            (Phase::Starting, Event::Started(Err(code))) => {
                self.phase = Phase::Stopping;
                self.failure = Some(PingError::SessionStartFailed(code));
                Action::Stop(self.handle)
            },
            (Phase::Running, Event::Success(p, c)) => {
                match self.tracker.on_ping_success(&p, &c) {
                    Some(reply) => Action::Notify(self.tracker.summary, reply),
                    None => Action::Wait,
                }
            },
            (Phase::Running, Event::Timeout(c)) => {
                match self.tracker.on_ping_timeout(&c) {
                    Some(reply) => Action::Notify(self.tracker.summary, reply),
                    None => Action::Wait,
                }
            },
            (Phase::Running, Event::End(c)) => {
                self.tracker.on_ping_end(&c);
                self.phase = Phase::Stopping;
                Action::Stop(self.handle)
            },
            (Phase::Running, Event::WaitFailed(code)) => {
                self.phase = Phase::Stopping;
                self.failure = Some(PingError::WaitFailed(code));
                Action::Stop(self.handle)
            },
            (Phase::Stopping, Event::Stopped(r)) => {
                self.phase = Phase::Destroying;
                self.failure = first_failure_of(self.failure, r, true);
                Action::Destroy(self.handle)
            },
            (Phase::Destroying, Event::Destroyed(r)) => {
                self.phase = Phase::Finished;
                self.failure = first_failure_of(self.failure, r, false);
                match self.failure {
                    Some(e) => Action::Finish(Err(e)),
                    None => Action::Finish(Ok(self.tracker.summary)),
                }
            },
            _ => Action::Ignore,
        }
    }
}

impl EspPing {
    /// A run that reports only the final summary.
    pub fn ping(&mut self, ip: Ipv4Addr, conf: &Configuration) -> (r: PingSession)
        ensures
            r == initial_session(session_config_of(old(self).0, ip, *conf), false),
            *final(self) == *old(self),
    {
        PingSession {
            phase: Phase::Creating,
            config: self.session_config(ip, conf),
            handle: 0,
            tracker: Tracker::new(false),
            failure: None,
        }
    }

    /// A run that also hands each reply, with the summary as of that reply,
    /// to an observer.
    pub fn ping_details(&mut self, ip: Ipv4Addr, conf: &Configuration) -> (r: PingSession)
        ensures
            r == initial_session(session_config_of(old(self).0, ip, *conf), true),
            *final(self) == *old(self),
    {
        PingSession {
            phase: Phase::Creating,
            config: self.session_config(ip, conf),
            handle: 0,
            tracker: Tracker::new(true),
            failure: None,
        }
    }
}

} // verus!
