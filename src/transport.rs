//! The wire framing: each message travels as a four-byte little-endian
//! length followed by that many bytes of encoded message. Also the small
//! decisions the connection loops make.

use vstd::prelude::*;

use crate::text::{has_substring, str_contains};

verus! {

/// Bytes in a frame header.
pub const FRAME_HEADER_LEN: usize = 4;

/// Ports a worker tries, counting from its base port.
pub const PORT_SCAN_WIDTH: u16 = 100;

/// The four little-endian bytes of `n`.
pub open spec fn le_bytes(n: u32) -> Seq<u8> {
    seq![
        (n & 0xff) as u8,
        ((n >> 8u32) & 0xff) as u8,
        ((n >> 16u32) & 0xff) as u8,
        ((n >> 24u32) & 0xff) as u8,
    ]
}

/// The number whose little-endian bytes are `b0 b1 b2 b3`.
pub open spec fn le_value(b0: u8, b1: u8, b2: u8, b3: u8) -> u32 {
    (b0 as u32) | ((b1 as u32) << 8u32) | ((b2 as u32) << 16u32) | ((b3 as u32) << 24u32)
}

/// The frame that carries `payload`.
pub open spec fn frame_of(payload: Seq<u8>) -> Seq<u8> {
    le_bytes(payload.len() as u32) + payload
}

/// The payload length a frame header announces.
pub open spec fn announced_len(buf: Seq<u8>) -> nat
    recommends
        buf.len() >= 4,
{
    le_value(buf[0], buf[1], buf[2], buf[3]) as nat
}

/// Reading one frame from the front of `buf`: the payload and the number of
/// bytes the frame takes, or `None` while `buf` holds less than a whole frame.
pub open spec fn parsed_frame(buf: Seq<u8>) -> Option<(Seq<u8>, nat)> {
    if buf.len() < 4 || buf.len() < 4 + announced_len(buf) {
        None
    } else {
        Some((buf.subrange(4, 4 + announced_len(buf) as int), (4 + announced_len(buf)) as nat))
    }
}

proof fn lemma_le_round_trip(n: u32)
    ensures
        le_value(
            (n & 0xff) as u8,
            ((n >> 8u32) & 0xff) as u8,
            ((n >> 16u32) & 0xff) as u8,
            ((n >> 24u32) & 0xff) as u8,
        ) == n,
{
    assert((((n & 0xff) as u8) as u32) | (((((n >> 8u32) & 0xff) as u8) as u32) << 8u32) | (
    ((((n >> 16u32) & 0xff) as u8) as u32) << 16u32) | (((((n >> 24u32) & 0xff) as u8) as u32)
        << 24u32) == n) by (bit_vector);
}

/// Reading a frame back gives the payload it was made from, whatever
/// follows it in the stream.
pub proof fn lemma_frame_round_trip(payload: Seq<u8>, rest: Seq<u8>)
    requires
        payload.len() <= u32::MAX,
    ensures
        parsed_frame(frame_of(payload) + rest) == Some((payload, (4 + payload.len()) as nat)),
{
    let n = payload.len() as u32;
    lemma_le_round_trip(n);
    let buf = frame_of(payload) + rest;
    assert(announced_len(buf) == payload.len());
    assert(buf.subrange(4, 4 + payload.len() as int) =~= payload);
}

/// Why a payload cannot be framed.
#[derive(Debug, Clone, Copy, PartialEq, Eq, Structural)]
pub enum FrameError {
    /// The payload is longer than a four-byte length can announce.
    PayloadTooLarge,
}

/// The frame for `payload`; fails exactly when its length does not fit in
/// four bytes.
pub fn encode_frame(payload: &[u8]) -> (r: Result<Vec<u8>, FrameError>)
    ensures
        r is Ok == (payload@.len() <= u32::MAX),
        r matches Ok(f) ==> f@ == frame_of(payload@),
        r matches Err(e) ==> e == FrameError::PayloadTooLarge,
{
    if payload.len() > u32::MAX as usize {
        return Err(FrameError::PayloadTooLarge);
    }
    let n = payload.len() as u32;
    let mut f: Vec<u8> = Vec::new();
    f.push((n & 0xff) as u8);
    f.push(((n >> 8u32) & 0xff) as u8);
    f.push(((n >> 16u32) & 0xff) as u8);
    f.push(((n >> 24u32) & 0xff) as u8);
    assert(f@ =~= le_bytes(n));
    let mut i: usize = 0;
    while i < payload.len()
        invariant
            i <= payload@.len(),
            f@ == le_bytes(n) + payload@.subrange(0, i as int),
        decreases payload@.len() - i,
    {
        f.push(payload[i]);
        i = i + 1;
        assert(f@ =~= le_bytes(n) + payload@.subrange(0, i as int));
    }
    assert(payload@.subrange(0, payload@.len() as int) =~= payload@);
    Ok(f)
}

/// The payload length announced by a frame header.
pub fn frame_payload_len(header: &[u8]) -> (r: usize)
    requires
        header@.len() == FRAME_HEADER_LEN,
    ensures
        r == announced_len(header@),
{
    let v = (header[0] as u32) | ((header[1] as u32) << 8u32) | ((header[2] as u32) << 16u32) | ((
    header[3] as u32) << 24u32);
    v as usize
}

/// What reading a frame from the front of a buffer found.
#[derive(Debug)]
pub enum FrameParse {
    /// The buffer does not yet hold a whole frame.
    Incomplete,
    /// A whole frame: its payload, and how many bytes of the buffer it took.
    Complete { payload: Vec<u8>, consumed: usize },
}

/// Reads one frame from the front of `buf`.
pub fn decode_frame(buf: &[u8]) -> (r: FrameParse)
    ensures
        match parsed_frame(buf@) {
            None => r is Incomplete,
            Some((p, n)) => r matches FrameParse::Complete { payload, consumed } && payload@ == p
                && consumed == n,
        },
{
    if buf.len() < FRAME_HEADER_LEN {
        return FrameParse::Incomplete;
    }
    let len = (buf[0] as u32) | ((buf[1] as u32) << 8u32) | ((buf[2] as u32) << 16u32) | ((
    buf[3] as u32) << 24u32);
    let len = len as usize;
    if buf.len() - FRAME_HEADER_LEN < len {
        return FrameParse::Incomplete;
    }
    let end = FRAME_HEADER_LEN + len;
    let mut payload: Vec<u8> = Vec::new();
    let mut i: usize = FRAME_HEADER_LEN;
    while i < end
        invariant
            FRAME_HEADER_LEN <= i <= end,
            end <= buf@.len(),
            payload@ == buf@.subrange(4, i as int),
        decreases end - i,
    {
        payload.push(buf[i]);
        i = i + 1;
        assert(payload@ =~= buf@.subrange(4, i as int));
    }
    FrameParse::Complete { payload, consumed: end }
}

/// Whether a receive error, given by its text, means the peer went away
/// (end of stream or a closed connection) rather than a fault worth
/// reporting.
pub fn is_disconnect(error_text: &str) -> (r: bool)
    ensures
        r == (has_substring(error_text@, "unexpected end"@) || has_substring(
            error_text@,
            "connection"@,
        )),
{
    str_contains(error_text, "unexpected end") || str_contains(error_text, "connection")
}

/// The ports a worker tries in turn, from `start` upward: a hundred of them,
/// or fewer where the port range ends first.
pub fn port_candidates(start: u16) -> (r: Vec<u16>)
    ensures
        r@.len() == if start as int + PORT_SCAN_WIDTH <= 65536 {
            PORT_SCAN_WIDTH as int
        } else {
            65536 - start
        },
        forall|i: int| 0 <= i < r@.len() ==> #[trigger] r@[i] == start + i,
{
    let mut r: Vec<u16> = Vec::new();
    let mut k: u16 = 0;
    while k < PORT_SCAN_WIDTH && (start as u32) + (k as u32) <= 65535
        invariant
            k <= PORT_SCAN_WIDTH,
            start as int + k <= 65536,
            r@.len() == k,
            forall|i: int| 0 <= i < r@.len() ==> #[trigger] r@[i] == start + i,
        decreases PORT_SCAN_WIDTH - k,
    {
        r.push(start + k);
        k = k + 1;
    }
    r
}

} // verus!
