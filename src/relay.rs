//! The decisions of the relay server's per-connection read loop. The loop
//! itself waits on the socket and the watchdog outside the registry's lock;
//! each time it wakes it hands what happened to `on_read`, under the lock.
//!
//! The relay is listening until its address is bound, idle while the
//! registry holds no connection and active while it holds one. A read loop
//! that sees a close, a read error or its watchdog drains its connection: it
//! releases its generation, and the relay is idle again until the next peer.
use vstd::prelude::*;
use crate::registry::{is_current_in, released, ConnectionRegistry};

verus! {

/// Seconds the read loop waits for an inbound message before its watchdog
/// fires.
pub const WATCHDOG_SECS: u64 = 5;

/// The local address the relay binds.
pub open spec fn relay_address() -> Seq<char> {
    "127.0.0.1:14528"@
}

pub fn relay_addr() -> (r: String)
    ensures
        r@ == relay_address(),
{
    String::from_str("127.0.0.1:14528")
}

/// What the read loop saw when it woke.
#[derive(Clone, Debug)]
pub enum ReadEvent {
    /// A text frame.
    Text(String),
    /// A frame of another kind (binary, ping, pong).
    Other,
    /// The peer closed the connection in order.
    Closed,
    /// Reading failed.
    Failed(String),
    /// Nothing arrived within the watchdog interval.
    TimedOut,
}

/// What the read loop does next.
#[derive(Clone, Debug)]
pub enum LoopAction {
    /// Push `notify` to the UI layer, then write `echo` back to the peer.
    Forward { notify: String, echo: String },
    /// Keep reading.
    Continue,
    /// The connection is over and has been cleared from the registry: exit.
    Drained,
    /// Another connection has been installed since: exit without touching it.
    Superseded,
}

pub open spec fn echo_of(t: Seq<char>) -> Seq<char> {
    "回声: "@ + t
}

/// The acknowledgment written back for an inbound text.
pub fn echo_text(t: &str) -> (r: String)
    ensures
        r@ == echo_of(t@),
{
    String::from_str("回声: ").concat(t)
}

/// The read loop's step for the connection of generation `g` on `event`.
/// A loop whose connection was replaced exits and changes nothing. A text is
/// forwarded verbatim and echoed; another frame is ignored; a close, a read
/// error or a watchdog timeout drains the connection: it is cleared from the
/// registry.
pub fn on_read<C>(registry: &mut ConnectionRegistry<C>, g: u64, event: ReadEvent) -> (r:
    LoopAction)
    ensures
        !is_current_in(old(registry)@, g as nat) ==> r is Superseded && final(registry)@ == old(
            registry,
        )@,
        is_current_in(old(registry)@, g as nat) ==> match event {
            ReadEvent::Text(t) => r matches LoopAction::Forward { notify, echo } && notify@ == t@
                && echo@ == echo_of(t@) && final(registry)@ == old(registry)@,
            ReadEvent::Other => r is Continue && final(registry)@ == old(registry)@,
            _ => r is Drained && final(registry)@ == released(old(registry)@, g as nat)
                && final(registry)@.connection is None,
        },
{
    if !registry.is_current(g) {
        return LoopAction::Superseded;
    }
    match event {
        ReadEvent::Text(t) => {
            let echo = echo_text(t.as_str());
            LoopAction::Forward { notify: t, echo }
        },
        ReadEvent::Other => LoopAction::Continue,
        _ => {
            registry.release(g);
            LoopAction::Drained
        },
    }
}

/// The read loop's step after writing the echo: a failed write drains the
/// connection of generation `g`; otherwise reading goes on.
pub fn after_echo<C>(registry: &mut ConnectionRegistry<C>, g: u64, written: bool) -> (r:
    LoopAction)
    ensures
        written ==> r is Continue && final(registry)@ == old(registry)@,
        !written ==> r is Drained && final(registry)@ == released(old(registry)@, g as nat),
{
    if written {
        LoopAction::Continue
    } else {
        registry.release(g);
        LoopAction::Drained
    }
}

} // verus!
