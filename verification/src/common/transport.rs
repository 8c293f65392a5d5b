use vstd::prelude::*;

use crate::common::strings::{decimal, decimal_string};

verus! {

/// std's I/O error, carried as an opaque value.
#[verifier::external_type_specification]
#[verifier::external_body]
pub struct ExIoError(std::io::Error);

/// rmp_serde's encode error, carried as an opaque value.
#[verifier::external_type_specification]
#[verifier::external_body]
pub struct ExEncodeError(rmp_serde::encode::Error);

/// rmp_serde's decode error, carried as an opaque value.
#[verifier::external_type_specification]
#[verifier::external_body]
pub struct ExDecodeError(rmp_serde::decode::Error);

/// The longest message body that a frame may announce, in bytes.
pub const MAX_MESSAGE_LENGTH: u32 = 10000000;

/// Why a message could not be read or written.
pub enum MessageError {
    EncodeError(rmp_serde::encode::Error),
    DecodeError(rmp_serde::decode::Error),
    IoError(std::io::Error),
    InvalidLength(u32),
    ConnectionClosed,
}

/// The kinds of I/O failure that the stream logic tells apart; `Other` is any other kind.
#[derive(Debug, Clone, Copy, PartialEq, Eq)]
pub enum StreamErrorKind {
    UnexpectedEof,
    ConnectionAborted,
    ConnectionReset,
    BrokenPipe,
    WouldBlock,
    ConnectionRefused,
    Other,
}

/// Whether a failure of this kind means that the other side went away.
pub open spec fn ends_connection(kind: StreamErrorKind) -> bool {
    match kind {
        StreamErrorKind::UnexpectedEof
        | StreamErrorKind::ConnectionAborted
        | StreamErrorKind::ConnectionReset
        | StreamErrorKind::BrokenPipe => true,
        _ => false,
    }
}

/// Whether a failure of this kind means that the other side went away.
pub fn is_connection_end(kind: StreamErrorKind) -> (out: bool)
    ensures
        out == ends_connection(kind),
{
    match kind {
        StreamErrorKind::UnexpectedEof
        | StreamErrorKind::ConnectionAborted
        | StreamErrorKind::ConnectionReset
        | StreamErrorKind::BrokenPipe => true,
        _ => false,
    }
}

/// The length that a frame announces for a body of `len` bytes: the length cut to 32 bits.
pub open spec fn wire_length(len: nat) -> u32 {
    (len % 0x1_0000_0000) as u32
}

/// `n` as four bytes, most significant first.
pub open spec fn be_bytes(n: u32) -> Seq<u8> {
    seq![
        (n / 0x100_0000) as u8,
        ((n / 0x1_0000) % 0x100) as u8,
        ((n / 0x100) % 0x100) as u8,
        (n % 0x100) as u8,
    ]
}

/// The number that four bytes give, most significant first.
pub open spec fn be_value(b: Seq<u8>) -> u32
    recommends
        b.len() == 4,
{
    (b[0] * 0x100_0000 + b[1] * 0x1_0000 + b[2] * 0x100 + b[3]) as u32
}

/// Four bytes read back give the number they were made from.
pub proof fn lemma_be_round_trip(n: u32)
    ensures
        be_bytes(n).len() == 4,
        be_value(be_bytes(n)) == n,
{
    let b = be_bytes(n);
    assert(b[0] == n / 0x100_0000);
    assert(b[1] == (n / 0x1_0000) % 0x100);
    assert(b[2] == (n / 0x100) % 0x100);
    assert(b[3] == n % 0x100);
    assert((n / 0x100_0000) * 0x100_0000 + ((n / 0x1_0000) % 0x100) * 0x1_0000 + ((n / 0x100)
        % 0x100) * 0x100 + n % 0x100 == n) by (nonlinear_arith);
}

/// Every frame header gives back, when read, the length it was made for; a body of at most
/// `MAX_MESSAGE_LENGTH` bytes is announced with its own length and kept as it is after the
/// header.
pub proof fn law_frame_round_trip(body: Seq<u8>)
    requires
        body.len() <= MAX_MESSAGE_LENGTH,
    ensures
        wire_length(body.len()) == body.len(),
        be_value(be_bytes(wire_length(body.len()))) == body.len(),
        (be_bytes(wire_length(body.len())) + body).take(4) == be_bytes(wire_length(body.len())),
        (be_bytes(wire_length(body.len())) + body).skip(4) == body,
{
    lemma_be_round_trip(wire_length(body.len()));
    let framed = be_bytes(wire_length(body.len())) + body;
    assert(framed.take(4) =~= be_bytes(wire_length(body.len())));
    assert(framed.skip(4) =~= body);
}

/// The four header bytes of `n`, most significant first.
pub fn encode_length(n: u32) -> (out: Vec<u8>)
    ensures
        out@ == be_bytes(n),
{
    let mut out: Vec<u8> = Vec::new();
    out.push((n / 0x100_0000) as u8);
    out.push(((n / 0x1_0000) % 0x100) as u8);
    out.push(((n / 0x100) % 0x100) as u8);
    out.push((n % 0x100) as u8);
    assert(out@ =~= be_bytes(n));
    out
}

/// The frame for a message body: its length in four bytes, most significant first, then the
/// body; a body whose announced length is over `MAX_MESSAGE_LENGTH` is refused with that length.
pub fn frame_message(body: &[u8]) -> (out: Result<Vec<u8>, MessageError>)
    ensures
        wire_length(body@.len()) > MAX_MESSAGE_LENGTH ==> (out matches Err(
            MessageError::InvalidLength(l),
        ) && l == wire_length(body@.len())),
        wire_length(body@.len()) <= MAX_MESSAGE_LENGTH ==> (out matches Ok(frame) && frame@
            == be_bytes(wire_length(body@.len())) + body@),
{
    let length: u32 = ((body.len() as u64) % 0x1_0000_0000u64) as u32;
    assert(length == wire_length(body@.len()));
    if length > MAX_MESSAGE_LENGTH {
        return Err(MessageError::InvalidLength(length));
    }
    let mut frame = encode_length(length);
    let mut i: usize = 0;
    while i < body.len()
        invariant
            i <= body@.len(),
            frame@ == be_bytes(length) + body@.take(i as int),
        decreases body@.len() - i,
    {
        frame.push(body[i]);
        proof {
            assert(body@.take(i + 1) =~= body@.take(i as int).push(body@[i as int]));
        }
        i = i + 1;
    }
    proof {
        assert(body@.take(i as int) =~= body@);
    }
    Ok(frame)
}

/// The body length that a frame header announces; one over `MAX_MESSAGE_LENGTH` is refused
/// with that length.
pub fn read_frame_length(header: [u8; 4]) -> (out: Result<u32, MessageError>)
    ensures
        be_value(header@) > MAX_MESSAGE_LENGTH ==> (out matches Err(
            MessageError::InvalidLength(l),
        ) && l == be_value(header@)),
        be_value(header@) <= MAX_MESSAGE_LENGTH ==> (out matches Ok(n) && n == be_value(header@)),
{
    let b0 = header[0] as u32;
    let b1 = header[1] as u32;
    let b2 = header[2] as u32;
    let b3 = header[3] as u32;
    assert(b0 * 0x100_0000 + b1 * 0x1_0000 + b2 * 0x100 + b3 <= u32::MAX) by (nonlinear_arith)
        requires
            b0 < 256,
            b1 < 256,
            b2 < 256,
            b3 < 256,
    ;
    let length: u32 = b0 * 0x100_0000 + b1 * 0x1_0000 + b2 * 0x100 + b3;
    if length > MAX_MESSAGE_LENGTH {
        Err(MessageError::InvalidLength(length))
    } else {
        Ok(length)
    }
}

/// What a read of `expected` bytes that returned `read` bytes comes to: reading nothing means
/// that the connection closed.
pub fn read_result(expected: usize, read: usize) -> (out: Result<usize, MessageError>)
    ensures
        read == 0 ==> out matches Err(MessageError::ConnectionClosed),
        read != 0 ==> (out matches Ok(n) && n == read),
{
    if read == 0 {
        Err(MessageError::ConnectionClosed)
    } else {
        Ok(read)
    }
}

/// The error that a failed read becomes: the connection closed when the failure ends it, the
/// I/O error itself otherwise.
pub fn read_failure(kind: StreamErrorKind, error: std::io::Error) -> (out: MessageError)
    ensures
        ends_connection(kind) ==> out matches MessageError::ConnectionClosed,
        !ends_connection(kind) ==> out == MessageError::IoError(error),
{
    if is_connection_end(kind) {
        MessageError::ConnectionClosed
    } else {
        MessageError::IoError(error)
    }
}

/// `to_string` of rmp_serde's encode error; nothing is stated of the text.
#[verifier::external_body]
fn encode_error_text(error: &rmp_serde::encode::Error) -> String {
    error.to_string()
}

/// `to_string` of rmp_serde's decode error; nothing is stated of the text.
#[verifier::external_body]
fn decode_error_text(error: &rmp_serde::decode::Error) -> String {
    error.to_string()
}

/// `to_string` of std's I/O error; nothing is stated of the text.
#[verifier::external_body]
fn io_error_text(error: &std::io::Error) -> String {
    error.to_string()
}

impl MessageError {
    /// The text of an invalid length error.
    pub open spec fn invalid_length_text(length: u32) -> Seq<char> {
        "Message longer than 10MB. Length: "@ + decimal(length as nat) + " bytes."@
    }

    /// A description of the error for people: what kind of error it is, then, for an encode,
    /// decode or I/O error, the outside error's own text (of which nothing is stated).
    pub fn describe(&self) -> (out: String)
        ensures
            self matches MessageError::InvalidLength(l) ==> out@ == Self::invalid_length_text(*l),
            self matches MessageError::ConnectionClosed ==> out@ == "Connection closed."@,
            self is EncodeError ==> "Encoding error: "@.is_prefix_of(out@),
            self is DecodeError ==> "Decoding error: "@.is_prefix_of(out@),
            self is IoError ==> "IO error: "@.is_prefix_of(out@),
    {
        match self {
            MessageError::EncodeError(e) => {
                let mut out = "Encoding error: ".to_string();
                out.append(encode_error_text(e).as_str());
                out
            },
            MessageError::DecodeError(e) => {
                let mut out = "Decoding error: ".to_string();
                out.append(decode_error_text(e).as_str());
                out
            },
            MessageError::IoError(e) => {
                let mut out = "IO error: ".to_string();
                out.append(io_error_text(e).as_str());
                out
            },
            MessageError::InvalidLength(length) => {
                let mut out = "Message longer than 10MB. Length: ".to_string();
                out.append(decimal_string(*length as usize).as_str());
                out.append(" bytes.");
                out
            },
            MessageError::ConnectionClosed => "Connection closed.".to_string(),
        }
    }
}

} // verus!
