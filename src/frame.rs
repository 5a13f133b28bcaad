use vstd::prelude::*;
use vstd::string::*;

verus! {

/// One message received from the feed server, by kind. Close, ping and pong
/// frames carry nothing that the client reads.
#[derive(Debug)]
pub enum Frame {
    Text(String),
    Binary(Vec<u8>),
    Close,
    Ping,
    Pong,
}

/// The lower-case hexadecimal digits.
pub open spec fn hex_digits() -> Seq<char> {
    seq!['0', '1', '2', '3', '4', '5', '6', '7', '8', '9', 'a', 'b', 'c', 'd', 'e', 'f']
}

/// `b` written as two lower-case hexadecimal digits per byte.
pub open spec fn hex_of(b: Seq<u8>) -> Seq<char>
    decreases b.len(),
{
    if b.len() == 0 {
        Seq::empty()
    } else {
        hex_of(b.drop_last()) + seq![hex_digits()[b.last() as int / 16], hex_digits()[b.last() as int % 16]]
    }
}

/// How a received frame, or the receive error, is shown in a diagnostic.
pub open spec fn described(received: Result<Frame, String>) -> Seq<char> {
    match received {
        Ok(Frame::Text(p)) => "text: "@ + p@,
        Ok(Frame::Binary(b)) => "binary: "@ + hex_of(b@),
        Ok(Frame::Close) => "close frame"@,
        Ok(Frame::Ping) => "ping frame"@,
        Ok(Frame::Pong) => "pong frame"@,
        Err(e) => "receive error: "@ + e@,
    }
}

/// `b` written as two lower-case hexadecimal digits per byte.
pub fn hex(b: &Vec<u8>) -> (r: String)
    ensures
        r@ == hex_of(b@),
{
    let digits = "0123456789abcdef";
    proof {
        reveal_strlit("0123456789abcdef");
    }
    assert(digits@ =~= hex_digits());
    let mut out = String::new();
    let mut i: usize = 0;
    assert(b@.subrange(0, 0) =~= Seq::<u8>::empty());
    while i < b.len()
        invariant
            i <= b@.len(),
            digits@ == hex_digits(),
            out@ == hex_of(b@.subrange(0, i as int)),
        decreases b.len() - i,
    {
        let hi = (b[i] / 16) as usize;
        let lo = (b[i] % 16) as usize;
        let ghost before = out@;
        out.append(digits.substring_char(hi, hi + 1));
        out.append(digits.substring_char(lo, lo + 1));
        assert(b@.subrange(0, i + 1).drop_last() =~= b@.subrange(0, i as int));
        assert(out@ =~= hex_of(b@.subrange(0, i + 1)));
        i = i + 1;
    }
    assert(b@.subrange(0, b@.len() as int) =~= b@);
    out
}

/// How a received frame, or the receive error, is shown in a diagnostic.
pub fn describe(received: &Result<Frame, String>) -> (r: String)
    ensures
        r@ == described(*received),
{
    match received {
        Ok(Frame::Text(p)) => String::from_str("text: ").concat(p.as_str()),
        Ok(Frame::Binary(b)) => String::from_str("binary: ").concat(hex(b).as_str()),
        Ok(Frame::Close) => String::from_str("close frame"),
        Ok(Frame::Ping) => String::from_str("ping frame"),
        Ok(Frame::Pong) => String::from_str("pong frame"),
        Err(e) => String::from_str("receive error: ").concat(e.as_str()),
    }
}

} // verus!
