use vstd::prelude::*;
use vstd::string::*;
use crate::frame::Frame;
use crate::handshake::{handshake_reason, is_echo, verify_handshake};
use crate::models::CarRow;
use crate::sequencer::{fatal_reason, feed_step, text_of, Outcome, Sequencer};
use crate::status::WebSocketStates;
use crate::text::plate_line;

verus! {

/// Seconds to wait after a connection could not be opened, or its handshake failed.
pub const CONNECT_BACKOFF_SECS: u64 = 5;

/// Seconds to wait after a live connection failed.
pub const STREAM_BACKOFF_SECS: u64 = 1;

/// Where the worker stands with its connection.
#[derive(PartialEq, Eq, Structural, Clone, Copy, Debug)]
pub enum Phase {
    /// No connection; the next thing to do is to open one.
    Connecting,
    /// A connection is open; the next frame is the handshake.
    Handshaking,
    /// The handshake passed; frames are decoded into events.
    Streaming,
}

/// What the host tells the worker after doing what its phase asks.
pub enum Input {
    /// The connection could not be opened.
    ConnectFailed,
    /// The connection was opened.
    Opened,
    /// A frame arrived, or the receive failed with the given error text.
    Received(Result<Frame, String>),
}

/// What the host is to do after a step, in this order: publish the status,
/// put the event at the front of the event buffer, close the connection,
/// wait, then publish the second status.
pub struct Reaction {
    pub publish: Option<WebSocketStates>,
    pub insert: Option<CarRow>,
    pub close: bool,
    pub wait_secs: u64,
    pub publish_after_wait: Option<WebSocketStates>,
}

/// The connection manager: one persistent connection, retried forever.
/// In `Connecting` the host opens a connection; otherwise it receives a frame.
pub struct Worker {
    pub phase: Phase,
    pub sequencer: Sequencer,
}

/// Whether `status` is `Some(Closed(text))` with the given text.
pub open spec fn publishes_closed(status: Option<WebSocketStates>, text: Seq<char>) -> bool {
    status is Some && status->Some_0 is Closed && status->Some_0->Closed_0@ == text
}

/// The status text after a live connection failed for `reason`.
pub open spec fn stream_reason(reason: Seq<char>) -> Seq<char> {
    "Error while receiving car: "@ + reason + ". Refreshing connection in 1 second..."@
}

impl Reaction {
    /// Nothing to do.
    pub open spec fn is_quiet(&self) -> bool {
        &&& self.publish is None
        &&& self.insert is None
        &&& !self.close
        &&& self.wait_secs == 0
        &&& self.publish_after_wait is None
    }

    /// Report `text`, close the connection where `close`, wait `secs`, then
    /// show that a new attempt is under way.
    pub open spec fn is_retry(&self, text: Seq<char>, close: bool, secs: u64) -> bool {
        &&& publishes_closed(self.publish, text)
        &&& self.insert is None
        &&& self.close == close
        &&& self.wait_secs == secs
        &&& self.publish_after_wait == Some(WebSocketStates::Reconnecting)
    }

    fn quiet() -> (r: Self)
        ensures
            r.is_quiet(),
    {
        Reaction { publish: None, insert: None, close: false, wait_secs: 0, publish_after_wait: None }
    }

    fn retry(text: String, close: bool, secs: u64) -> (r: Self)
        ensures
            r.is_retry(text@, close, secs),
    {
        Reaction {
            publish: Some(WebSocketStates::Closed(text)),
            insert: None,
            close,
            wait_secs: secs,
            publish_after_wait: Some(WebSocketStates::Reconnecting),
        }
    }
}

impl Worker {
    /// A worker that has not connected yet.
    pub fn new() -> (r: Self)
        ensures
            r.phase == Phase::Connecting,
            r.sequencer.stage() is Vehicle,
    {
        Worker { phase: Phase::Connecting, sequencer: Sequencer::new() }
    }

    /// Takes what happened and says what to do next.
    /// - A failed connect is reported and retried after `CONNECT_BACKOFF_SECS`.
    /// - After an opened connection comes the handshake; if it passes, the
    ///   status becomes `Connected` and streaming starts on a fresh decoder,
    ///   else the reason is reported, the connection closed, and the connect
    ///   retried after `CONNECT_BACKOFF_SECS`.
    /// - While streaming each frame goes to the decoder: a decoded event is
    ///   to be inserted, a skipped or pending frame changes nothing, and a
    ///   fatal one is reported, the connection closed, and a new connect
    ///   made after `STREAM_BACKOFF_SECS`.
    /// - An input that does not fit the phase changes nothing.
    pub fn step(&mut self, input: Input) -> (r: Reaction)
        ensures
            match (old(self).phase, input) {
                (Phase::Connecting, Input::ConnectFailed) => {
                    &&& final(self).phase == Phase::Connecting
                    &&& r.is_retry(
                        "Unable to connect to websocket. Retrying in 5 seconds"@,
                        false,
                        CONNECT_BACKOFF_SECS,
                    )
                },
                (Phase::Connecting, Input::Opened) => {
                    &&& final(self).phase == Phase::Handshaking
                    &&& r.is_quiet()
                },
                (Phase::Handshaking, Input::Received(received)) => if is_echo(received) {
                    &&& final(self).phase == Phase::Streaming
                    &&& final(self).sequencer.stage() is Vehicle
                    &&& r.publish == Some(WebSocketStates::Connected)
                    &&& r.insert is None
                    &&& !r.close
                    &&& r.wait_secs == 0
                    &&& r.publish_after_wait is None
                } else {
                    &&& final(self).phase == Phase::Connecting
                    &&& r.is_retry(handshake_reason(received), true, CONNECT_BACKOFF_SECS)
                },
                (Phase::Streaming, Input::Received(received)) => {
                    let (stage, step) = feed_step(old(self).sequencer.stage(), received);
                    &&& final(self).sequencer.stage() == stage
                    &&& if step is Fatal {
                        &&& final(self).phase == Phase::Connecting
                        &&& r.is_retry(
                            stream_reason(fatal_reason(old(self).sequencer.stage(), received)),
                            true,
                            STREAM_BACKOFF_SECS,
                        )
                    } else {
                        &&& final(self).phase == Phase::Streaming
                        &&& r.publish is None
                        &&& !r.close
                        &&& r.wait_secs == 0
                        &&& r.publish_after_wait is None
                        &&& (r.insert is Some <==> step is Decoded)
                        &&& r.insert is Some ==> ({
                            let row = r.insert->Some_0;
                            let line = plate_line(text_of(received))->Some_0;
                            &&& row.license_plate_as_string@ == line.0
                            &&& row.uuid == line.1
                            &&& row.car_image == old(self).sequencer->AwaitPlateText_0
                            &&& row.license_plate_image
                                == old(self).sequencer->AwaitPlateText_1
                        })
                    }
                },
                _ => {
                    &&& final(self).phase == old(self).phase
                    &&& final(self).sequencer == old(self).sequencer
                    &&& r.is_quiet()
                },
            },
    {
        match input {
            Input::ConnectFailed => {
                if self.phase == Phase::Connecting {
                    Reaction::retry(
                        String::from_str("Unable to connect to websocket. Retrying in 5 seconds"),
                        false,
                        CONNECT_BACKOFF_SECS,
                    )
                } else {
                    Reaction::quiet()
                }
            },
            Input::Opened => {
                if self.phase == Phase::Connecting {
                    self.phase = Phase::Handshaking;
                }
                Reaction::quiet()
            },
            Input::Received(received) => match self.phase {
                Phase::Connecting => Reaction::quiet(),
                Phase::Handshaking => match verify_handshake(&received) {
                    Ok(()) => {
                        self.phase = Phase::Streaming;
                        self.sequencer = Sequencer::new();
                        Reaction {
                            publish: Some(WebSocketStates::Connected),
                            insert: None,
                            close: false,
                            wait_secs: 0,
                            publish_after_wait: None,
                        }
                    },
                    Err(reason) => {
                        self.phase = Phase::Connecting;
                        Reaction::retry(reason, true, CONNECT_BACKOFF_SECS)
                    },
                },
                Phase::Streaming => match self.sequencer.feed(received) {
                    Outcome::Decoded(row) => Reaction {
                        publish: None,
                        insert: Some(row),
                        close: false,
                        wait_secs: 0,
                        publish_after_wait: None,
                    },
                    Outcome::Fatal(reason) => {
                        self.phase = Phase::Connecting;
                        let mut text = String::from_str("Error while receiving car: ");
                        text.append(reason.as_str());
                        text.append(". Refreshing connection in 1 second...");
                        Reaction::retry(text, true, STREAM_BACKOFF_SECS)
                    },
                    _ => Reaction::quiet(),
                },
            },
        }
    }
}

} // verus!
