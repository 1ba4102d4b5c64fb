//! The streaming session: one per subscriber connection. It resolves the
//! requested routing key — an unknown key is refused at once, with no
//! subscription created — then attaches a cursor at the topic's tail and
//! turns each read into what goes out on the wire.

use vstd::prelude::*;

use crate::frame::lag_frame;
use crate::frame::lag_frame_view;
use crate::registry::Registry;
use crate::topic::Cursor;
use crate::topic::Receive;

verus! {

/// What the session does after one read from its topic.
pub enum SessionStep {
    /// Write this text to the subscriber's connection and read again.
    Send(String),
    /// Nothing new yet: suspend until the topic has more, then read again.
    Wait,
    /// The topic will never produce more frames: end the session cleanly.
    End,
}

/// Starts a session for `key`: an unknown key is refused with nothing
/// subscribed and no state held, exactly when the key is outside the
/// registry; a known key yields its topic's index and a fresh cursor at
/// that topic's current tail.
pub fn open_session(registry: &Registry, key: &String) -> (r: Option<(usize, Cursor)>)
    requires
        registry.wf(),
    ensures
        r is Some <==> registry@.has_key(key@),
        r matches Some(s) ==> s.0 < registry@.keys.len() && s.0 < registry@.topics.len()
            && registry@.keys[s.0 as int] == key@ && s.1.position()
            == registry@.topics[s.0 as int].total(),
{
    match registry.resolve(key) {
        Some(i) => {
            let cursor = registry.subscribe_to(i);
            Some((i, cursor))
        },
        None => None,
    }
}

/// Turns one read into the session's next step: a received frame is sent
/// to the subscriber as it is; a lag notification becomes the distinct
/// lag frame carrying the number of missed frames, and the session goes
/// on; nothing-yet means suspend; a closed topic ends the session.
pub fn session_step(r: Receive) -> (s: SessionStep)
    ensures
        r matches Receive::Frame(f) ==> s matches SessionStep::Send(out) && out@ == f@,
        r matches Receive::Lagged(n) ==> s matches SessionStep::Send(out) && out@
            == lag_frame_view(n as nat),
        r is Empty ==> s is Wait,
        r is Closed ==> s is End,
{
    match r {
        Receive::Frame(f) => SessionStep::Send(f),
        Receive::Lagged(n) => SessionStep::Send(lag_frame(n)),
        Receive::Empty => SessionStep::Wait,
        Receive::Closed => SessionStep::End,
    }
}

} // verus!
