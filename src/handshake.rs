use vstd::prelude::*;
use vstd::string::*;
use crate::frame::{describe, described, Frame};

verus! {

/// Whether the first frame of a connection is the text `echo`.
pub open spec fn is_echo(received: Result<Frame, String>) -> bool {
    match received {
        Ok(Frame::Text(p)) => p@ == "echo"@,
        _ => false,
    }
}

/// The status text after a failed handshake: it shows what came instead.
pub open spec fn handshake_reason(received: Result<Frame, String>) -> Seq<char> {
    "First message received was supposed to be echo, but got \""@ + described(received)
        + "\" instead. Retrying in 5 seconds..."@
}

/// Checks the first frame received on a new connection: only a text frame
/// reading exactly `echo` passes. Anything else fails with a reason that
/// shows the frame or the receive error.
pub fn verify_handshake(received: &Result<Frame, String>) -> (r: Result<(), String>)
    ensures
        r is Ok <==> is_echo(*received),
        r is Err ==> r->Err_0@ == handshake_reason(*received),
{
    if let Ok(Frame::Text(p)) = received {
        if *p == String::from_str("echo") {
            return Ok(());
        }
    }
    let mut reason = String::from_str("First message received was supposed to be echo, but got \"");
    reason.append(describe(received).as_str());
    reason.append("\" instead. Retrying in 5 seconds...");
    Err(reason)
}

} // verus!
