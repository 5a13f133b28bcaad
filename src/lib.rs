//! Client side of a vehicle-detection feed: connection status, the handshake
//! check, the three-frame event decoder and the reconnect state machine.
//! Socket I/O, timers and rendering are left to the host program, which feeds
//! received frames in and carries out the returned effects.

pub mod frame;
pub mod handshake;
pub mod models;
pub mod sequencer;
pub mod status;
pub mod text;
pub mod worker;

pub use status::{WebSocketState, WebSocketStates};
pub use text::{parse_plate_line, trim, white_space};
pub use models::{record_event, CarRow};
pub use frame::{describe, hex, Frame};
pub use handshake::verify_handshake;
pub use sequencer::{Outcome, Sequencer};
pub use worker::{Input, Phase, Reaction, Worker, CONNECT_BACKOFF_SECS, STREAM_BACKOFF_SECS};
