//! Framing of messages: four bytes of length, most significant first, then the payload.

use vstd::prelude::*;

use crate::supervision::ipc::protocol::IpcError;

verus! {

/// Longest payload that a receiver accepts, so that a bad length cannot ask for any amount
/// of memory.
pub const MAX_IPC_MESSAGE_SIZE: u32 = 1048576;

/// A number as four bytes, most significant first.
pub open spec fn be_bytes(n: u32) -> Seq<u8> {
    seq![
        (n / 16777216) as u8,
        ((n / 65536) % 256) as u8,
        ((n / 256) % 256) as u8,
        (n % 256) as u8,
    ]
}

/// The number that four bytes make, most significant first.
pub open spec fn be_value(b: Seq<u8>) -> int {
    b[0] * 16777216 + b[1] * 65536 + b[2] * 256 + b[3]
}

/// Bytes read back as the number they were written for.
pub proof fn be_round_trip(n: u32)
    ensures
        be_bytes(n).len() == 4,
        be_value(be_bytes(n)) == n,
{
}

/// A frame: the length of the payload, then the payload.
pub open spec fn frame(payload: Seq<u8>) -> Seq<u8> {
    be_bytes(payload.len() as u32) + payload
}

/// Puts a payload in a frame. Only a length beyond four bytes is refused.
pub fn encode_frame(payload: &[u8]) -> (out: Result<Vec<u8>, IpcError>)
    ensures
        match out {
            Ok(f) => payload@.len() <= u32::MAX && f@ == frame(payload@),
            Err(e) => payload@.len() > u32::MAX && e == IpcError::MessageTooLarge(
                payload@.len() as usize,
            ),
        },
{
    let n: usize = payload.len();
    if n > 4294967295 {
        return Err(IpcError::MessageTooLarge(n));
    }
    let len: u32 = n as u32;
    let mut out: Vec<u8> = Vec::new();
    out.push((len / 16777216) as u8);
    out.push(((len / 65536) % 256) as u8);
    out.push(((len / 256) % 256) as u8);
    out.push((len % 256) as u8);
    assert(out@ =~= be_bytes(len));
    for i in 0..payload.len()
        invariant
            out@ == be_bytes(len) + payload@.take(i as int),
    {
        out.push(payload[i]);
        assert(payload@.take(i + 1) =~= payload@.take(i as int).push(payload@[i as int]));
    }
    assert(payload@.take(payload@.len() as int) =~= payload@);
    Ok(out)
}

/// How many payload bytes follow a length header, if a receiver accepts that many.
pub fn payload_length(header: &[u8; 4]) -> (out: Result<usize, IpcError>)
    ensures
        match out {
            Ok(n) => n == be_value(header@) && n <= MAX_IPC_MESSAGE_SIZE,
            Err(e) => be_value(header@) > MAX_IPC_MESSAGE_SIZE && e == IpcError::MessageTooLarge(
                be_value(header@) as usize,
            ),
        },
{
    let len: u32 = header[0] as u32 * 16777216 + header[1] as u32 * 65536 + header[2] as u32 * 256
        + header[3] as u32;
    if len > MAX_IPC_MESSAGE_SIZE {
        return Err(IpcError::MessageTooLarge(len as usize));
    }
    Ok(len as usize)
}

/// What received bytes hold.
pub enum Received {
    /// The frame is not complete yet; this many bytes are still missing.
    Missing(usize),
    /// The payload of the first frame, and how many bytes it took.
    Payload(Vec<u8>, usize),
}

/// What received bytes hold, as a mathematical value.
pub enum ReceivedData {
    /// The frame is not complete yet; this many bytes are still missing.
    Missing(int),
    /// The payload of the first frame, and how many bytes it took.
    Payload(Seq<u8>, int),
    /// The payload is longer than a receiver accepts; its length.
    Refused(int),
}

/// What received bytes hold: a length that is not accepted is refused before its payload came.
pub open spec fn received(bytes: Seq<u8>) -> ReceivedData {
    if bytes.len() < 4 {
        ReceivedData::Missing(4 - bytes.len())
    } else {
        let n = be_value(bytes.take(4));
        if n > MAX_IPC_MESSAGE_SIZE {
            ReceivedData::Refused(n)
        } else if bytes.len() < 4 + n {
            ReceivedData::Missing(4 + n - bytes.len())
        } else {
            ReceivedData::Payload(bytes.subrange(4, 4 + n), 4 + n)
        }
    }
}

/// Takes the first frame off received bytes.
pub fn decode_frame(bytes: &[u8]) -> (out: Result<Received, IpcError>)
    ensures
        match out {
            Ok(Received::Missing(n)) => received(bytes@) == ReceivedData::Missing(n as int),
            Ok(Received::Payload(p, used)) => received(bytes@) == ReceivedData::Payload(
                p@,
                used as int,
            ),
            Err(e) => received(bytes@) matches ReceivedData::Refused(n) && e
                == IpcError::MessageTooLarge(n as usize),
        },
{
    if bytes.len() < 4 {
        return Ok(Received::Missing(4 - bytes.len()));
    }
    let header: [u8; 4] = [bytes[0], bytes[1], bytes[2], bytes[3]];
    assert(header@ =~= bytes@.take(4));
    let n: usize = match payload_length(&header) {
        Ok(n) => n,
        Err(e) => return Err(e),
    };
    let need: usize = 4 + n;
    if bytes.len() < need {
        return Ok(Received::Missing(need - bytes.len()));
    }
    let mut payload: Vec<u8> = Vec::new();
    for i in 4..need
        invariant
            4 <= need <= bytes@.len(),
            payload@ == bytes@.subrange(4, i as int),
    {
        payload.push(bytes[i]);
        assert(bytes@.subrange(4, i + 1) =~= bytes@.subrange(4, i as int).push(bytes@[i as int]));
    }
    Ok(Received::Payload(payload, need))
}

/// A receiver gets back the payload that a sender put in a frame, and exactly that frame's
/// bytes are used, whatever follows it.
pub proof fn frame_round_trip(payload: Seq<u8>, rest: Seq<u8>)
    requires
        payload.len() <= MAX_IPC_MESSAGE_SIZE,
    ensures
        received(frame(payload) + rest) == ReceivedData::Payload(payload, frame(payload).len() as int),
        (frame(payload) + rest).skip(frame(payload).len() as int) == rest,
{
    let all = frame(payload) + rest;
    be_round_trip(payload.len() as u32);
    assert(all.take(4) =~= be_bytes(payload.len() as u32));
    assert(all.subrange(4, 4 + payload.len() as int) =~= payload);
    assert(all.skip(4 + payload.len() as int) =~= rest);
}

/// A receiver waits for a frame until the whole of it came: as long as bytes are missing it knows
/// of some, and never asks for more than the rest of the frame.
pub proof fn frame_is_awaited(payload: Seq<u8>, n: int)
    requires
        payload.len() <= MAX_IPC_MESSAGE_SIZE,
        0 <= n < frame(payload).len(),
    ensures
        received(frame(payload).take(n)) matches ReceivedData::Missing(m) && 0 < m
            <= frame(payload).len() - n,
{
    let part = frame(payload).take(n);
    be_round_trip(payload.len() as u32);
    if n >= 4 {
        assert(part.take(4) =~= be_bytes(payload.len() as u32));
    }
}

/// A receiver refuses every frame whose payload is longer than it accepts.
pub proof fn long_frame_is_refused(payload: Seq<u8>, rest: Seq<u8>)
    requires
        MAX_IPC_MESSAGE_SIZE < payload.len() <= u32::MAX,
    ensures
        received(frame(payload) + rest) == ReceivedData::Refused(payload.len() as int),
{
    be_round_trip(payload.len() as u32);
    assert((frame(payload) + rest).take(4) =~= be_bytes(payload.len() as u32));
}

/// Different payloads have different frames.
pub proof fn frame_is_injective(a: Seq<u8>, b: Seq<u8>)
    requires
        a.len() <= u32::MAX,
        b.len() <= u32::MAX,
        frame(a) == frame(b),
    ensures
        a == b,
{
    assert(a =~= frame(a).skip(4));
    assert(b =~= frame(b).skip(4));
}

/// The length goes in front of the payload in four bytes, the most significant one first.
pub proof fn length_goes_first(payload: Seq<u8>)
    requires
        payload.len() <= u32::MAX,
    ensures
        frame(payload).len() == 4 + payload.len(),
        frame(payload)[0] == payload.len() / 16777216,
        frame(payload)[1] == (payload.len() / 65536) % 256,
        frame(payload)[2] == (payload.len() / 256) % 256,
        frame(payload)[3] == payload.len() % 256,
        forall|i: int| 0 <= i < payload.len() ==> #[trigger] frame(payload)[4 + i] == payload[i],
{
}

/// A receiver knows exactly how much is missing: the rest of the length, or once that is there the
/// rest of the frame; and it accepts a mebibyte at most.
pub proof fn missing_bytes_are_counted(payload: Seq<u8>, n: int)
    requires
        payload.len() <= 1048576,
        0 <= n < 4 + payload.len(),
    ensures
        received(frame(payload).take(n)) == ReceivedData::Missing(
            if n < 4 {
                4 - n
            } else {
                4 + payload.len() - n
            },
        ),
        received(frame(payload)) == ReceivedData::Payload(payload, 4 + payload.len() as int),
{
    be_round_trip(payload.len() as u32);
    if n >= 4 {
        assert(frame(payload).take(n).take(4) =~= be_bytes(payload.len() as u32));
    }
    assert(frame(payload).take(4) =~= be_bytes(payload.len() as u32));
    assert(frame(payload).subrange(4, 4 + payload.len() as int) =~= payload);
}

/// A length beyond a mebibyte is refused as soon as it is known.
pub proof fn long_payloads_are_refused(bytes: Seq<u8>)
    requires
        bytes.len() >= 4,
        bytes[0] * 16777216 + bytes[1] * 65536 + bytes[2] * 256 + bytes[3] > 1048576,
    ensures
        received(bytes) == ReceivedData::Refused(
            bytes[0] * 16777216 + bytes[1] * 65536 + bytes[2] * 256 + bytes[3],
        ),
{
}

} // verus!
