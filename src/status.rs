use vstd::prelude::*;

verus! {

/// Health of the connection to the feed server, as shown to the user.
#[derive(Debug)]
pub enum WebSocketStates {
    /// The handshake succeeded and events are being streamed.
    Connected,
    /// A connection attempt is under way; nothing has succeeded yet.
    Reconnecting,
    /// Any failure; carries a human-readable cause. Also shown while the
    /// worker waits before its next attempt.
    Closed(String),
}

/// The status cell shared between the worker (sole writer) and the renderer.
#[derive(Debug)]
pub struct WebSocketState {
    pub value: WebSocketStates,
}

impl Default for WebSocketState {
    /// Before the worker has made any attempt, the status is `Reconnecting`.
    fn default() -> (r: Self)
        ensures
            r.value is Reconnecting,
    {
        WebSocketState { value: WebSocketStates::Reconnecting }
    }
}

} // verus!
