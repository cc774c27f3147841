//! Length-prefixed frames for the daemon socket: four little-endian length
//! bytes, then the payload.

use vstd::prelude::*;
use crate::constants::IPC_MAX_MESSAGE_BYTES;
use crate::error::ErrorCode;

verus! {

/// The four little-endian bytes of a 32-bit length.
pub open spec fn le_bytes(n: nat) -> Seq<u8> {
    seq![(n % 256) as u8, (n / 256 % 256) as u8, (n / 65536 % 256) as u8, (n / 16777216 % 256) as u8]
}

/// The number four little-endian bytes spell.
pub open spec fn le_value(b0: u8, b1: u8, b2: u8, b3: u8) -> nat {
    (b0 + 256 * b1 + 65536 * b2 + 16777216 * b3) as nat
}

/// The frame for a payload, or `None` when the payload is empty or larger
/// than the limit.
pub open spec fn frame_of(payload: Seq<u8>) -> Option<Seq<u8>> {
    if payload.len() == 0 || payload.len() > IPC_MAX_MESSAGE_BYTES {
        None
    } else {
        Some(le_bytes(payload.len()) + payload)
    }
}

/// What reading one frame from the front of `buf` gives: the payload and
/// the bytes consumed, `Io` when the buffer is still short, and
/// `InvalidProfile` for a length of zero or over the limit.
pub open spec fn read_frame(buf: Seq<u8>) -> Result<(Seq<u8>, nat), ErrorCode> {
    if buf.len() < 4 {
        Err(ErrorCode::Io)
    } else {
        let len = le_value(buf[0], buf[1], buf[2], buf[3]);
        if len == 0 || len > IPC_MAX_MESSAGE_BYTES {
            Err(ErrorCode::InvalidProfile)
        } else if buf.len() < 4 + len {
            Err(ErrorCode::Io)
        } else {
            Ok((buf.subrange(4, 4 + len as int), (4 + len) as nat))
        }
    }
}

pub fn encode_frame(payload: &[u8]) -> (r: Result<Vec<u8>, ErrorCode>)
    ensures
        match frame_of(payload@) {
            Some(f) => r matches Ok(out) && out@ == f,
            None => r == Err::<Vec<u8>, ErrorCode>(ErrorCode::InvalidProfile),
        },
{
    let len = payload.len();
    if len == 0 || len > IPC_MAX_MESSAGE_BYTES as usize {
        return Err(ErrorCode::InvalidProfile);
    }
    let n: u32 = len as u32;
    let mut out: Vec<u8> = Vec::new();
    out.push((n % 256) as u8);
    out.push((n / 256 % 256) as u8);
    out.push((n / 65536 % 256) as u8);
    out.push((n / 16777216 % 256) as u8);
    let mut i: usize = 0;
    while i < len
        invariant
            i <= len,
            len == payload@.len(),
            out@ == le_bytes(len as nat) + payload@.take(i as int),
        decreases len - i,
    {
        out.push(payload[i]);
        i += 1;
        assert(out@ =~= le_bytes(len as nat) + payload@.take(i as int));
    }
    assert(payload@.take(len as int) =~= payload@);
    Ok(out)
}

pub fn decode_frame(buf: &[u8]) -> (r: Result<(Vec<u8>, usize), ErrorCode>)
    ensures
        match read_frame(buf@) {
            Ok((payload, used)) => r matches Ok((out, n)) && out@ == payload && n == used,
            Err(e) => r == Err::<(Vec<u8>, usize), ErrorCode>(e),
        },
{
    if buf.len() < 4 {
        return Err(ErrorCode::Io);
    }
    let len: u64 = buf[0] as u64 + 256 * (buf[1] as u64) + 65536 * (buf[2] as u64) + 16777216 * (buf[3] as u64);
    if len == 0 || len > IPC_MAX_MESSAGE_BYTES as u64 {
        return Err(ErrorCode::InvalidProfile);
    }
    let total: usize = 4 + len as usize;
    if buf.len() < total {
        return Err(ErrorCode::Io);
    }
    let mut out: Vec<u8> = Vec::new();
    let mut i: usize = 4;
    while i < total
        invariant
            4 <= i <= total <= buf.len(),
            out@ == buf@.subrange(4, i as int),
        decreases total - i,
    {
        out.push(buf[i]);
        i += 1;
        assert(out@ =~= buf@.subrange(4, i as int));
    }
    Ok((out, total))
}

/// Reading back a frame gives the payload that was framed, whatever bytes
/// follow it in the stream.
pub proof fn lemma_frame_roundtrip(payload: Seq<u8>, rest: Seq<u8>)
    requires frame_of(payload) is Some,
    ensures read_frame(frame_of(payload)->0 + rest) == Ok::<(Seq<u8>, nat), ErrorCode>((payload, (payload.len() + 4) as nat)),
{
    let n = payload.len();
    let f = frame_of(payload)->0;
    let buf = f + rest;
    assert(buf[0] == (n % 256) as u8);
    assert(buf[1] == (n / 256 % 256) as u8);
    assert(buf[2] == (n / 65536 % 256) as u8);
    assert(buf[3] == (n / 16777216 % 256) as u8);
    assert(le_value(buf[0], buf[1], buf[2], buf[3]) == n) by (nonlinear_arith)
        requires
            n <= 1048576,
            buf[0] == (n % 256) as u8,
            buf[1] == (n / 256 % 256) as u8,
            buf[2] == (n / 65536 % 256) as u8,
            buf[3] == (n / 16777216 % 256) as u8,
    ;
    assert(buf.subrange(4, 4 + n as int) =~= payload);
}

} // verus!
