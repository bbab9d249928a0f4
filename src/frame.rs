//! Length-prefixed framing: a 4-byte big-endian length, then that many
//! bytes of payload. A declared length above the ceiling is refused from the
//! header alone, before any payload is read or a buffer is sized.

use vstd::prelude::*;

verus! {

/// Default ceiling on a frame's payload: 64 MiB.
pub const MAX_FRAME_LEN: u32 = 67108864;

/// The value of four bytes read as a big-endian unsigned integer.
pub open spec fn be_u32(b0: u8, b1: u8, b2: u8, b3: u8) -> nat {
    b0 as nat * 16777216 + b1 as nat * 65536 + b2 as nat * 256 + b3 as nat
}

/// The four bytes that encode `n` big-endian.
pub open spec fn be_bytes(n: nat) -> Seq<u8> {
    seq![
        (n / 16777216 % 256) as u8,
        (n / 65536 % 256) as u8,
        (n / 256 % 256) as u8,
        (n % 256) as u8,
    ]
}

/// The declared payload length of a buffer that holds at least a header.
pub open spec fn declared_len(buf: Seq<u8>) -> nat
    recommends
        buf.len() >= 4,
{
    be_u32(buf[0], buf[1], buf[2], buf[3])
}

/// What a decoder makes of the start of a byte stream.
#[derive(Debug, Clone, PartialEq, Eq)]
pub enum FrameDecode {
    /// Fewer bytes than the header and declared payload need.
    NeedMore,
    /// The header declares more than the ceiling; nothing else was read.
    TooLarge { declared: u32 },
    /// A whole frame: its payload and the bytes it took from the stream.
    Complete { payload: Vec<u8>, consumed: usize },
}

/// Errors of the framing layer.
#[derive(Debug, Clone, PartialEq, Eq)]
pub enum FrameError {
    /// A payload longer than the ceiling.
    FrameTooLarge { len: usize, max: u32 },
}

/// The declared length in a 4-byte header.
pub fn header_len(header: [u8; 4]) -> (r: u32)
    ensures
        r as nat == be_u32(header@[0], header@[1], header@[2], header@[3]),
{
    let r = (header[0] as u32) * 16777216 + (header[1] as u32) * 65536 + (header[2] as u32) * 256
        + (header[3] as u32);
    r
}

/// Decide from a header whether its payload may be read: `Ok` with the
/// length to read when it is within `max`, `FrameTooLarge` otherwise.
pub fn check_header(header: [u8; 4], max: u32) -> (r: Result<usize, FrameError>)
    ensures
        match r {
            Ok(n) => n as nat == be_u32(header@[0], header@[1], header@[2], header@[3]) && n <= max,
            Err(FrameError::FrameTooLarge { len, max: m }) => m == max && len as nat == be_u32(
                header@[0],
                header@[1],
                header@[2],
                header@[3],
            ) && len > max,
        },
{
    let len = header_len(header);
    if len > max {
        Err(FrameError::FrameTooLarge { len: len as usize, max })
    } else {
        Ok(len as usize)
    }
}

/// Frame a payload: its length big-endian, then its bytes.
pub fn encode_frame(payload: &[u8], max: u32) -> (r: Result<Vec<u8>, FrameError>)
    ensures
        payload@.len() <= max ==> r is Ok && r->Ok_0@ == be_bytes(payload@.len()) + payload@,
        payload@.len() > max ==> r == Err::<Vec<u8>, FrameError>(
            FrameError::FrameTooLarge { len: payload@.len() as usize, max },
        ),
{
    let n = payload.len();
    if n > max as usize {
        return Err(FrameError::FrameTooLarge { len: n, max });
    }
    let len = n as u32;
    let mut out: Vec<u8> = Vec::new();
    out.push((len / 16777216 % 256) as u8);
    out.push((len / 65536 % 256) as u8);
    out.push((len / 256 % 256) as u8);
    out.push((len % 256) as u8);
    let mut i: usize = 0;
    while i < n
        invariant
            0 <= i <= n,
            n == payload@.len(),
            len as nat == n,
            out@ == be_bytes(n as nat) + payload@.subrange(0, i as int),
        decreases n - i,
    {
        out.push(payload[i]);
        i = i + 1;
        assert(out@ =~= be_bytes(n as nat) + payload@.subrange(0, i as int));
    }
    assert(payload@.subrange(0, n as int) =~= payload@);
    Ok(out)
}

/// Decode the frame at the start of `buf`. The verdict on an oversized frame
/// rests on the four header bytes alone.
pub fn decode_frame(buf: &[u8], max: u32) -> (r: FrameDecode)
    ensures
        buf@.len() < 4 ==> r == FrameDecode::NeedMore,
        buf@.len() >= 4 && declared_len(buf@) > max ==> r == (FrameDecode::TooLarge {
            declared: declared_len(buf@) as u32,
        }),
        buf@.len() >= 4 && declared_len(buf@) <= max && buf@.len() < 4 + declared_len(buf@) ==> r
            == FrameDecode::NeedMore,
        buf@.len() >= 4 && declared_len(buf@) <= max && buf@.len() >= 4 + declared_len(buf@) ==> (
        match r {
            FrameDecode::Complete { payload, consumed } => consumed == 4 + declared_len(buf@)
                && payload@ == buf@.subrange(4, consumed as int),
            _ => false,
        }),
{
    if buf.len() < 4 {
        return FrameDecode::NeedMore;
    }
    let header: [u8; 4] = [buf[0], buf[1], buf[2], buf[3]];
    let declared = header_len(header);
    if declared > max {
        return FrameDecode::TooLarge { declared };
    }
    let len = declared as usize;
    if buf.len() - 4 < len {
        return FrameDecode::NeedMore;
    }
    let total = buf.len();
    let mut payload: Vec<u8> = Vec::new();
    let mut i: usize = 0;
    while i < len
        invariant
            0 <= i <= len,
            total == buf@.len(),
            4 + len <= buf@.len(),
            payload@ == buf@.subrange(4, 4 + i),
        decreases len - i,
    {
        payload.push(buf[4 + i]);
        i = i + 1;
        assert(payload@ =~= buf@.subrange(4, 4 + i));
    }
    FrameDecode::Complete { payload, consumed: 4 + len }
}

/// A frame that declares more than the ceiling is refused from its header,
/// whatever follows it: the payload bytes play no part in the verdict.
pub proof fn lemma_oversize_rejected_from_header(header: Seq<u8>, rest1: Seq<u8>, rest2: Seq<u8>, max: u32)
    requires
        header.len() == 4,
        declared_len(header) > max,
    ensures
        declared_len(header + rest1) == declared_len(header),
        declared_len(header + rest2) == declared_len(header),
{
    assert((header + rest1)[0] == header[0] && (header + rest1)[1] == header[1]);
    assert((header + rest1)[2] == header[2] && (header + rest1)[3] == header[3]);
    assert((header + rest2)[0] == header[0] && (header + rest2)[1] == header[1]);
    assert((header + rest2)[2] == header[2] && (header + rest2)[3] == header[3]);
}

/// Reading back a frame gives the payload that was framed, and consumes
/// exactly the frame, whatever follows it in the stream.
pub proof fn lemma_frame_round_trip(payload: Seq<u8>, rest: Seq<u8>, max: u32)
    requires
        payload.len() <= max,
    ensures
        declared_len(be_bytes(payload.len()) + payload + rest) == payload.len(),
        (be_bytes(payload.len()) + payload + rest).subrange(4, 4 + payload.len() as int) == payload,
{
    let n = payload.len();
    let s = be_bytes(n) + payload + rest;
    assert(s[0] == (n / 16777216 % 256) as u8);
    assert(s[1] == (n / 65536 % 256) as u8);
    assert(s[2] == (n / 256 % 256) as u8);
    assert(s[3] == (n % 256) as u8);
    assert(n < 4294967296);
    assert(be_u32(s[0], s[1], s[2], s[3]) == n) by (nonlinear_arith)
        requires
            n < 4294967296,
            s[0] == (n / 16777216 % 256) as u8,
            s[1] == (n / 65536 % 256) as u8,
            s[2] == (n / 256 % 256) as u8,
            s[3] == (n % 256) as u8,
    ;
    assert(s.subrange(4, 4 + n as int) =~= payload);
}

} // verus!
