use vstd::prelude::*;

verus! {

/// The number of bytes that a frame's length prefix takes.
pub const PREFIX_LEN: usize = 8;

/// The length prefix of a frame: the byte count as eight bytes, the most
/// significant first.
pub open spec fn length_prefix(n: u64) -> Seq<u8> {
    seq![
        (n / 0x100_0000_0000_0000) as u8,
        ((n / 0x1_0000_0000_0000) % 256) as u8,
        ((n / 0x100_0000_0000) % 256) as u8,
        ((n / 0x1_0000_0000) % 256) as u8,
        ((n / 0x100_0000) % 256) as u8,
        ((n / 0x1_0000) % 256) as u8,
        ((n / 0x100) % 256) as u8,
        (n % 256) as u8,
    ]
}

/// The byte count that the first eight bytes stand for.
pub open spec fn prefix_value(bytes: Seq<u8>) -> int
    recommends
        bytes.len() >= 8,
{
    bytes[0] * 0x100_0000_0000_0000 + bytes[1] * 0x1_0000_0000_0000 + bytes[2] * 0x100_0000_0000
        + bytes[3] * 0x1_0000_0000 + bytes[4] * 0x100_0000 + bytes[5] * 0x1_0000 + bytes[6] * 0x100
        + bytes[7]
}

/// A frame: the length prefix of the payload, then the payload.
pub open spec fn frame(payload: Seq<u8>) -> Seq<u8>
    recommends
        payload.len() <= u64::MAX,
{
    length_prefix(payload.len() as u64) + payload
}

/// Why no frame could be read.
#[derive(Debug, Clone, Copy, PartialEq, Eq, Structural)]
pub enum FrameError {
    /// The stream ended before a frame began.
    Eof,
    /// The stream ended within a frame: within its prefix or its payload.
    Framing,
}

/// What reading one frame from the front of `bytes` gives: the payload and
/// the number of bytes that the frame took.
pub open spec fn frame_read(bytes: Seq<u8>) -> Result<(Seq<u8>, int), FrameError> {
    if bytes.len() == 0 {
        Err(FrameError::Eof)
    } else if bytes.len() < 8 {
        Err(FrameError::Framing)
    } else if bytes.len() - 8 < prefix_value(bytes) {
        Err(FrameError::Framing)
    } else {
        Ok((bytes.subrange(8, 8 + prefix_value(bytes)), 8 + prefix_value(bytes)))
    }
}

/// What the front of a stream says of the frame that begins there: the
/// byte count of its payload.
pub open spec fn declared_len(bytes: Seq<u8>) -> Result<int, FrameError> {
    if bytes.len() == 0 {
        Err(FrameError::Eof)
    } else if bytes.len() < 8 {
        Err(FrameError::Framing)
    } else {
        Ok(prefix_value(bytes))
    }
}

/// A length prefix stands for the byte count it was made of.
pub proof fn prefix_round_trip(n: u64)
    ensures
        length_prefix(n).len() == 8,
        prefix_value(length_prefix(n)) == n,
{
    assert(n / 0x100_0000_0000_0000 < 256) by (bit_vector);
    assert(n == (n / 0x100_0000_0000_0000) * 0x100_0000_0000_0000 + ((n / 0x1_0000_0000_0000)
        % 256) * 0x1_0000_0000_0000 + ((n / 0x100_0000_0000) % 256) * 0x100_0000_0000 + ((n
        / 0x1_0000_0000) % 256) * 0x1_0000_0000 + ((n / 0x100_0000) % 256) * 0x100_0000 + ((n
        / 0x1_0000) % 256) * 0x1_0000 + ((n / 0x100) % 256) * 0x100 + (n % 256)) by (bit_vector);
}

/// Reading what was written gives the payload back, and takes exactly the
/// frame, whatever follows it.
pub proof fn frame_round_trip(payload: Seq<u8>, rest: Seq<u8>)
    requires
        payload.len() <= u64::MAX,
    ensures
        frame_read(frame(payload) + rest) == Ok::<(Seq<u8>, int), FrameError>(
            (payload, 8 + payload.len() as int),
        ),
{
    let n = payload.len() as u64;
    let bytes = frame(payload) + rest;
    prefix_round_trip(n);
    assert(prefix_value(bytes) == prefix_value(length_prefix(n))) by {
        assert(forall|i: int| 0 <= i < 8 ==> bytes[i] == length_prefix(n)[i]);
    }
    assert(bytes.subrange(8, 8 + payload.len() as int) =~= payload);
}

/// Puts a payload into a frame.
pub fn write_frame(payload: &[u8]) -> (framed: Vec<u8>)
    ensures
        framed@ == frame(payload@),
{
    let n: u64 = payload.len() as u64;
    let mut framed: Vec<u8> = Vec::new();
    framed.push((n / 0x100_0000_0000_0000) as u8);
    framed.push(((n / 0x1_0000_0000_0000) % 256) as u8);
    framed.push(((n / 0x100_0000_0000) % 256) as u8);
    framed.push(((n / 0x1_0000_0000) % 256) as u8);
    framed.push(((n / 0x100_0000) % 256) as u8);
    framed.push(((n / 0x1_0000) % 256) as u8);
    framed.push(((n / 0x100) % 256) as u8);
    framed.push((n % 256) as u8);
    assert(framed@ =~= length_prefix(n));
    let mut i: usize = 0;
    while i < payload.len()
        invariant
            i <= payload@.len(),
            framed@ =~= length_prefix(n) + payload@.take(i as int),
        decreases payload@.len() - i,
    {
        framed.push(payload[i]);
        assert(payload@.take(i + 1) =~= payload@.take(i as int).push(payload@[i as int]));
        i += 1;
    }
    assert(payload@.take(i as int) =~= payload@);
    framed
}

/// Reads the length prefix at the front of `bytes`: the byte count of the
/// payload that has to follow.
pub fn frame_len(bytes: &[u8]) -> (declared: Result<u64, FrameError>)
    ensures
        match declared_len(bytes@) {
            Ok(n) => declared matches Ok(d) && d == n,
            Err(e) => declared == Err::<u64, FrameError>(e),
        },
{
    if bytes.len() == 0 {
        return Err(FrameError::Eof);
    }
    if bytes.len() < 8 {
        return Err(FrameError::Framing);
    }
    Ok(
        (bytes[0] as u64) * 0x100_0000_0000_0000 + (bytes[1] as u64) * 0x1_0000_0000_0000 + (
        bytes[2] as u64) * 0x100_0000_0000 + (bytes[3] as u64) * 0x1_0000_0000 + (bytes[4] as u64)
            * 0x100_0000 + (bytes[5] as u64) * 0x1_0000 + (bytes[6] as u64) * 0x100 + (
        bytes[7] as u64),
    )
}

/// Reads one frame from the front of `bytes`. A stream that ends within a
/// frame is an error, never a shorter payload.
pub fn read_frame(bytes: &[u8]) -> (read: Result<(Vec<u8>, usize), FrameError>)
    ensures
        match frame_read(bytes@) {
            Ok((payload, taken)) => read matches Ok((p, t)) && p@ == payload && t == taken,
            Err(e) => read == Err::<(Vec<u8>, usize), FrameError>(e),
        },
{
    let declared: u64 = match frame_len(bytes) {
        Ok(n) => n,
        Err(e) => {
            return Err(e);
        },
    };
    let available: usize = bytes.len() - 8;
    if (available as u64) < declared {
        return Err(FrameError::Framing);
    }
    let len: usize = declared as usize;
    let mut payload: Vec<u8> = Vec::new();
    let mut i: usize = 0;
    while i < len
        invariant
            i <= len,
            len + 8 <= bytes@.len(),
            len + 8 <= usize::MAX,
            payload@ =~= bytes@.subrange(8, 8 + i),
        decreases len - i,
    {
        payload.push(bytes[8 + i]);
        i += 1;
    }
    Ok((payload, 8 + len))
}

} // verus!
