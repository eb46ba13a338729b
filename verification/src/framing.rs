//! Native-messaging stdio framing: every message is a 4-byte
//! little-endian length followed by that many payload bytes.

use vstd::prelude::*;

verus! {

/// The four little-endian bytes of `v`.
pub open spec fn u32_le_bytes(v: u32) -> Seq<u8> {
    seq![
        (v & 0xff) as u8,
        ((v >> 8) & 0xff) as u8,
        ((v >> 16) & 0xff) as u8,
        ((v >> 24) & 0xff) as u8,
    ]
}

/// The value whose little-endian bytes are `b0 b1 b2 b3`.
pub open spec fn u32_from_le(b0: u8, b1: u8, b2: u8, b3: u8) -> u32 {
    (b0 as u32) | ((b1 as u32) << 8) | ((b2 as u32) << 16) | ((b3 as u32) << 24)
}

/// The length a header announces: a payload length taken modulo 2^32,
/// as the writer stores it in 32 bits.
pub open spec fn header_length(len: nat) -> u32 {
    (len % 0x1_0000_0000) as u32
}

/// The frame that carries `payload`: its header, then the payload.
pub open spec fn frame(payload: Seq<u8>) -> Seq<u8> {
    u32_le_bytes(header_length(payload.len())) + payload
}

proof fn lemma_le_bytes_of_value(b0: u8, b1: u8, b2: u8, b3: u8)
    ensures
        u32_le_bytes(u32_from_le(b0, b1, b2, b3)) == seq![b0, b1, b2, b3],
{
    let v = u32_from_le(b0, b1, b2, b3);
    assert(((v == (b0 as u32) | ((b1 as u32) << 8) | ((b2 as u32) << 16) | ((b3 as u32) << 24))
        ==> ((v & 0xff) as u8 == b0 && ((v >> 8) & 0xff) as u8 == b1 && ((v >> 16) & 0xff) as u8
        == b2 && ((v >> 24) & 0xff) as u8 == b3))) by (bit_vector);
    assert(u32_le_bytes(v) =~= seq![b0, b1, b2, b3]);
}

proof fn lemma_value_of_le_bytes(v: u32)
    ensures
        u32_from_le(
            u32_le_bytes(v)[0],
            u32_le_bytes(v)[1],
            u32_le_bytes(v)[2],
            u32_le_bytes(v)[3],
        ) == v,
{
    assert(v == (((v & 0xff) as u8) as u32 | (((v >> 8) & 0xff) as u8 as u32) << 8 | (((v >> 16)
        & 0xff) as u8 as u32) << 16 | (((v >> 24) & 0xff) as u8 as u32) << 24)) by (bit_vector);
}

/// Reads the payload length from a frame header.
pub fn frame_len_from_header(header: [u8; 4]) -> (len: u32)
    ensures
        len == u32_from_le(header[0], header[1], header[2], header[3]),
        u32_le_bytes(len) == header@,
{
    let b0 = header[0];
    let b1 = header[1];
    let b2 = header[2];
    let b3 = header[3];
    let v: u32 = (b0 as u32) | ((b1 as u32) << 8) | ((b2 as u32) << 16) | ((b3 as u32) << 24);
    proof {
        lemma_le_bytes_of_value(b0, b1, b2, b3);
        assert(header@ =~= seq![b0, b1, b2, b3]);
    }
    v
}

/// Builds the frame that carries `payload`: the payload length, modulo
/// 2^32, in four little-endian bytes, followed by the payload itself.
pub fn encode_frame(payload: &[u8]) -> (out: Vec<u8>)
    ensures
        out@ == frame(payload@),
{
    let n: u64 = payload.len() as u64;
    let v: u32 = (n % 0x1_0000_0000) as u32;
    let mut out: Vec<u8> = Vec::new();
    out.push((v & 0xff) as u8);
    out.push(((v >> 8) & 0xff) as u8);
    out.push(((v >> 16) & 0xff) as u8);
    out.push(((v >> 24) & 0xff) as u8);
    let mut i: usize = 0;
    while i < payload.len()
        invariant
            i <= payload@.len(),
            out@ == u32_le_bytes(v) + payload@.take(i as int),
        decreases payload@.len() - i,
    {
        out.push(payload[i]);
        proof {
            assert(payload@.take(i + 1) =~= payload@.take(i as int).push(payload@[i as int]));
        }
        i = i + 1;
    }
    proof {
        assert(payload@.take(payload@.len() as int) =~= payload@);
        assert(v == header_length(payload@.len()));
    }
    out
}


/// The whole frames at the front of a byte stream, in order: each header
/// announces its payload's length; reading stops at the first frame that
/// is not complete.
pub open spec fn frames_of(s: Seq<u8>) -> Seq<Seq<u8>>
    decreases s.len(),
{
    if s.len() < 4 {
        Seq::empty()
    } else {
        let len = u32_from_le(s[0], s[1], s[2], s[3]) as int;
        if s.len() - 4 < len {
            Seq::empty()
        } else {
            seq![s.subrange(4, 4 + len)] + frames_of(s.subrange(4 + len, s.len() as int))
        }
    }
}

/// The result of splitting a frame off the front of a byte buffer.
pub enum FrameSplit {
    /// The buffer does not yet hold a whole frame.
    Incomplete,
    /// A whole frame: its payload and the number of bytes it took.
    Complete { payload: Vec<u8>, consumed: usize },
}

/// Splits the first frame off `buf`, the bytes read so far from the
/// extension: the header gives the payload length, and the frame is
/// complete once that many bytes follow the header.
pub fn split_frame(buf: &[u8]) -> (r: FrameSplit)
    ensures
        match r {
            FrameSplit::Incomplete => {
                &&& buf@.len() < 4 || buf@.len() - 4 < u32_from_le(
                    buf@[0],
                    buf@[1],
                    buf@[2],
                    buf@[3],
                )
                &&& frames_of(buf@) == Seq::<Seq<u8>>::empty()
            },
            FrameSplit::Complete { payload, consumed } => {
                &&& buf@.len() >= 4
                &&& consumed == 4 + u32_from_le(buf@[0], buf@[1], buf@[2], buf@[3])
                &&& consumed <= buf@.len()
                &&& payload@ == buf@.subrange(4, consumed as int)
                &&& frames_of(buf@) == seq![payload@] + frames_of(buf@.skip(consumed as int))
            },
        },
{
    if buf.len() < 4 {
        return FrameSplit::Incomplete;
    }
    let len = frame_len_from_header([buf[0], buf[1], buf[2], buf[3]]);
    if buf.len() - 4 < len as usize {
        return FrameSplit::Incomplete;
    }
    let end: usize = 4 + len as usize;
    let mut payload: Vec<u8> = Vec::new();
    let mut i: usize = 4;
    while i < end
        invariant
            4 <= i <= end,
            end <= buf@.len(),
            payload@ == buf@.subrange(4, i as int),
        decreases end - i,
    {
        payload.push(buf[i]);
        proof {
            assert(buf@.subrange(4, i + 1) =~= buf@.subrange(4, i as int).push(buf@[i as int]));
        }
        i = i + 1;
    }
    assert(buf@.skip(end as int) =~= buf@.subrange(end as int, buf@.len() as int));
    FrameSplit::Complete { payload, consumed: end }
}

/// The bytes that a single writer puts out for the messages `ps`, in
/// order: each message's frame, one after the other.
pub open spec fn frame_stream(ps: Seq<Seq<u8>>) -> Seq<u8>
    decreases ps.len(),
{
    if ps.len() == 0 {
        Seq::empty()
    } else {
        frame(ps[0]) + frame_stream(ps.drop_first())
    }
}

/// The byte views of a list of messages.
pub open spec fn byte_views(ps: Seq<Vec<u8>>) -> Seq<Seq<u8>> {
    ps.map_values(|p: Vec<u8>| p@)
}

/// The frames of the messages `payloads`, in order, as one byte string.
pub fn encode_frames(payloads: &Vec<Vec<u8>>) -> (out: Vec<u8>)
    ensures
        out@ == frame_stream(byte_views(payloads@)),
{
    let ghost ps = byte_views(payloads@);
    let mut out: Vec<u8> = Vec::new();
    let mut i: usize = 0;
    assert(ps.skip(0) =~= ps);
    while i < payloads.len()
        invariant
            i <= payloads@.len(),
            ps == byte_views(payloads@),
            frame_stream(ps) == out@ + frame_stream(ps.skip(i as int)),
        decreases payloads@.len() - i,
    {
        let mut f = encode_frame(payloads[i].as_slice());
        proof {
            assert(ps.skip(i as int).drop_first() =~= ps.skip(i + 1));
            assert(ps.skip(i as int)[0] == payloads@[i as int]@);
            assert(out@ + (f@ + frame_stream(ps.skip(i + 1))) =~= (out@ + f@) + frame_stream(
                ps.skip(i + 1),
            ));
        }
        out.append(&mut f);
        i = i + 1;
    }
    assert(ps.skip(payloads@.len() as int) =~= Seq::<Seq<u8>>::empty());
    assert(out@ + Seq::<u8>::empty() =~= out@);
    out
}

/// Reading a stream that starts with the frame of `payload` yields that
/// payload first, then the frames of what follows.
pub proof fn lemma_frames_of_frame(payload: Seq<u8>, rest: Seq<u8>)
    requires
        payload.len() <= u32::MAX,
    ensures
        frames_of(frame(payload) + rest) == seq![payload] + frames_of(rest),
{
    lemma_frame_roundtrip(payload, rest);
    let s = frame(payload) + rest;
    let n = payload.len() as int;
    assert(s.subrange(4 + n, s.len() as int) =~= rest);
}

/// What the single writer puts out reads back as the same messages, in
/// the same order: frames are never interleaved, split, dropped or padded
/// (for messages shorter than 2^32 bytes).
pub proof fn lemma_frame_stream_reads_back(ps: Seq<Seq<u8>>)
    requires
        forall|i: int| 0 <= i < ps.len() ==> (#[trigger] ps[i]).len() <= u32::MAX,
    ensures
        frames_of(frame_stream(ps)) == ps,
    decreases ps.len(),
{
    if ps.len() == 0 {
        assert(frames_of(Seq::<u8>::empty()) =~= Seq::<Seq<u8>>::empty());
    } else {
        let rest = ps.drop_first();
        assert forall|i: int| 0 <= i < rest.len() implies (#[trigger] rest[i]).len() <= u32::MAX by {
            assert(rest[i] == ps[i + 1]);
        }
        lemma_frame_stream_reads_back(rest);
        assert(ps[0].len() <= u32::MAX);
        lemma_frames_of_frame(ps[0], frame_stream(rest));
        assert(seq![ps[0]] + rest =~= ps);
    }
}

/// What is read back from a frame is what was written into it: for a
/// payload shorter than 2^32 bytes, the header at the front of any buffer
/// that starts with `frame(payload)` announces the payload's length, and the
/// payload follows the header unchanged.
pub proof fn lemma_frame_roundtrip(payload: Seq<u8>, rest: Seq<u8>)
    requires
        payload.len() <= u32::MAX,
    ensures
        ({
            let buf = frame(payload) + rest;
            &&& u32_from_le(buf[0], buf[1], buf[2], buf[3]) == payload.len()
            &&& buf.subrange(4, 4 + payload.len() as int) == payload
        }),
{
    let v = header_length(payload.len());
    assert(v == payload.len());
    lemma_value_of_le_bytes(v);
    let buf = frame(payload) + rest;
    assert(buf[0] == u32_le_bytes(v)[0]);
    assert(buf[1] == u32_le_bytes(v)[1]);
    assert(buf[2] == u32_le_bytes(v)[2]);
    assert(buf[3] == u32_le_bytes(v)[3]);
    assert(buf.subrange(4, 4 + payload.len() as int) =~= payload);
}

/// A header is never ambiguous: every 4-byte header is the encoding of the
/// length it announces.
pub proof fn lemma_header_canonical(b0: u8, b1: u8, b2: u8, b3: u8)
    ensures
        u32_le_bytes(u32_from_le(b0, b1, b2, b3)) == seq![b0, b1, b2, b3],
{
    lemma_le_bytes_of_value(b0, b1, b2, b3);
}

} // verus!
