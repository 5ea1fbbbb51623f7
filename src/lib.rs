//! Blocking, observable ICMP echo sessions over an event-driven ping engine.
//!
//! The engine delivers per-reply success and timeout events and one end event.
//! [`PingSession`] is the bridge between that engine and a blocking caller: it
//! decides, for each outcome the engine reports, what the driver does next.
mod ping;
pub mod trace;

pub use ping::{
    Action, Configuration, Counters, Duration, EspPing, Event, Info, Ipv4Addr, Phase, PingError,
    PingSession, Reply, SessionConfig, SuccessProfile, Summary, Tracker, REQUEST_TTL, TASK_PRIO,
    TASK_STACK_SIZE,
};
