use vstd::prelude::*;

verus! {

/// Largest payload, in bytes, that a control-protocol frame may carry.
pub const MAX_FRAME_LEN: usize = 1048576;

/// Why a control-protocol frame was refused.
#[derive(Debug, PartialEq, Eq, Structural, Clone, Copy)]
pub enum FrameError {
    /// The length prefix announces more than [`MAX_FRAME_LEN`] bytes.
    TooLarge,
    /// The buffer ends before the frame does.
    Incomplete,
}

/// The big-endian unsigned integer that four bytes spell.
pub open spec fn be_u32(b: Seq<u8>) -> int
    recommends
        b.len() == 4,
{
    b[0] * 16777216 + b[1] * 65536 + b[2] * 256 + b[3]
}

/// The four big-endian bytes of `n`.
pub open spec fn be_bytes(n: int) -> Seq<u8> {
    seq![
        (n / 16777216) as u8,
        ((n / 65536) % 256) as u8,
        ((n / 256) % 256) as u8,
        (n % 256) as u8,
    ]
}

/// The frame that carries `payload`: its length in four big-endian bytes,
/// then the payload itself.
pub open spec fn frame_of(payload: Seq<u8>) -> Seq<u8> {
    be_bytes(payload.len() as int) + payload
}

/// What reading one frame from the start of `buf` yields.
pub open spec fn read_frame(buf: Seq<u8>) -> Result<Seq<u8>, FrameError> {
    if buf.len() < 4 {
        Err(FrameError::Incomplete)
    } else {
        let n = be_u32(buf.take(4));
        if n > MAX_FRAME_LEN {
            Err(FrameError::TooLarge)
        } else if buf.len() < 4 + n {
            Err(FrameError::Incomplete)
        } else {
            Ok(buf.subrange(4, 4 + n))
        }
    }
}

/// Payload length announced by a frame's four-byte prefix; a length over
/// [`MAX_FRAME_LEN`] is refused before any payload byte is read.
pub fn frame_payload_len(prefix: [u8; 4]) -> (r: Result<usize, FrameError>)
    ensures
        match r {
            Ok(n) => n == be_u32(prefix@) && n <= MAX_FRAME_LEN,
            Err(e) => e == FrameError::TooLarge && be_u32(prefix@) > MAX_FRAME_LEN,
        },
{
    let n: u64 = (prefix[0] as u64) * 16777216 + (prefix[1] as u64) * 65536 + (prefix[2] as u64)
        * 256 + (prefix[3] as u64);
    if n > MAX_FRAME_LEN as u64 {
        Err(FrameError::TooLarge)
    } else {
        Ok(n as usize)
    }
}

/// Frames `payload` for the control socket; a payload over
/// [`MAX_FRAME_LEN`] bytes is refused, as the reading side would refuse it.
pub fn encode_frame(payload: &Vec<u8>) -> (r: Result<Vec<u8>, FrameError>)
    ensures
        match r {
            Ok(f) => payload@.len() <= MAX_FRAME_LEN && f@ == frame_of(payload@),
            Err(e) => e == FrameError::TooLarge && payload@.len() > MAX_FRAME_LEN,
        },
{
    let n = payload.len();
    if n > MAX_FRAME_LEN {
        return Err(FrameError::TooLarge);
    }
    let mut f: Vec<u8> = Vec::new();
    f.push((n / 16777216) as u8);
    f.push(((n / 65536) % 256) as u8);
    f.push(((n / 256) % 256) as u8);
    f.push((n % 256) as u8);
    let mut i: usize = 0;
    while i < n
        invariant
            0 <= i <= n == payload@.len() <= MAX_FRAME_LEN,
            f@ == be_bytes(n as int) + payload@.subrange(0, i as int),
        decreases n - i,
    {
        f.push(payload[i]);
        assert(payload@.subrange(0, i + 1) =~= payload@.subrange(0, i as int).push(
            payload@[i as int],
        ));
        i = i + 1;
    }
    assert(payload@.subrange(0, n as int) =~= payload@);
    Ok(f)
}

/// Reads one frame from the start of `buf`: the payload, or why none can be had.
pub fn decode_frame(buf: &Vec<u8>) -> (r: Result<Vec<u8>, FrameError>)
    ensures
        match r {
            Ok(p) => read_frame(buf@) == Ok::<Seq<u8>, FrameError>(p@),
            Err(e) => read_frame(buf@) == Err::<Seq<u8>, FrameError>(e),
        },
{
    if buf.len() < 4 {
        return Err(FrameError::Incomplete);
    }
    let prefix: [u8; 4] = [buf[0], buf[1], buf[2], buf[3]];
    assert(prefix@ =~= buf@.take(4));
    let n = match frame_payload_len(prefix) {
        Ok(n) => n,
        Err(e) => {
            return Err(e);
        },
    };
    if buf.len() - 4 < n {
        return Err(FrameError::Incomplete);
    }
    let mut p: Vec<u8> = Vec::new();
    let mut i: usize = 0;
    while i < n
        invariant
            0 <= i <= n <= MAX_FRAME_LEN,
            4 + n <= buf@.len(),
            p@ == buf@.subrange(4, 4 + i),
        decreases n - i,
    {
        p.push(buf[4 + i]);
        assert(buf@.subrange(4, 4 + i + 1) =~= buf@.subrange(4, 4 + i).push(buf@[4 + i]));
        i = i + 1;
    }
    Ok(p)
}

/// A frame's length prefix reads back as the length it was written with.
pub proof fn lemma_be_round_trip(n: int)
    requires
        0 <= n < 4294967296,
    ensures
        be_u32(be_bytes(n)) == n,
{
    let b = be_bytes(n);
    assert(b[0] == n / 16777216);
    assert(b[1] == (n / 65536) % 256);
    assert(b[2] == (n / 256) % 256);
    assert(b[3] == n % 256);
    assert((n / 16777216) * 16777216 + ((n / 65536) % 256) * 65536 + ((n / 256) % 256) * 256 + n
        % 256 == n) by (nonlinear_arith)
        requires
            0 <= n < 4294967296,
    ;
}

/// Any payload the protocol accepts comes back unchanged from its frame, and
/// an oversized announcement is refused whatever follows it.
pub proof fn lemma_frame_round_trip(payload: Seq<u8>, rest: Seq<u8>)
    ensures
        payload.len() <= MAX_FRAME_LEN ==> read_frame(frame_of(payload) + rest) == Ok::<
            Seq<u8>,
            FrameError,
        >(payload),
        payload.len() > MAX_FRAME_LEN && payload.len() < 4294967296 ==> read_frame(
            frame_of(payload) + rest,
        ) == Err::<Seq<u8>, FrameError>(FrameError::TooLarge),
{
    if payload.len() < 4294967296 {
        let buf = frame_of(payload) + rest;
        lemma_be_round_trip(payload.len() as int);
        assert(buf.take(4) =~= be_bytes(payload.len() as int));
        assert(buf.subrange(4, 4 + payload.len() as int) =~= payload);
    }
}

} // verus!
