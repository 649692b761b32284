//! Binary frame: a fixed 9-byte header + payload, carried inside the existing
//! E2EE envelope. Layout (big-endian):
//!
//! ```text
//! +------+---------+-----------+-------+--------+-----------+
//! | ver  | service | channel   | flags |  seq   |  payload  |
//! | u8   | u8      | u16       | u8    |  u32   |  bytes…   |
//! +------+---------+-----------+-------+--------+-----------+
//! ```
//!
//! `service` is a `crate::service::ServiceId` code; `channel` is mux-assigned;
//! payload is JSON for control and raw codec bytes for media.

use vstd::prelude::*;

use crate::wire::be::{copy_range, push_be16, push_be32, push_bytes, read_be16, read_be32};

verus! {

pub const VERSION: u8 = 2;

pub const HEADER_LEN: usize = 9;

/// Frame flag: drop-tolerant (media); else reliable.
pub const FLAG_DATAGRAM: u8 = 0x01;

#[derive(Clone, Debug, PartialEq, Eq)]
pub struct Frame {
    pub service: u8,
    pub channel: u16,
    pub flags: u8,
    pub seq: u32,
    pub payload: Vec<u8>,
}

/// What a frame says.
pub struct FrameView {
    pub service: u8,
    pub channel: u16,
    pub flags: u8,
    pub seq: u32,
    pub payload: Seq<u8>,
}

impl View for Frame {
    type V = FrameView;

    open spec fn view(&self) -> FrameView {
        FrameView {
            service: self.service,
            channel: self.channel,
            flags: self.flags,
            seq: self.seq,
            payload: self.payload@,
        }
    }
}

/// The bytes of a frame.
pub open spec fn frame_bytes(f: FrameView) -> Seq<u8> {
    seq![VERSION, f.service] + crate::wire::be::be16(f.channel) + seq![f.flags] + crate::wire::be::be32(
        f.seq,
    ) + f.payload
}

/// The frame that `bytes` holds: none if they are shorter than a header or carry
/// another version.
pub open spec fn frame_of(bytes: Seq<u8>) -> Option<FrameView> {
    if bytes.len() < HEADER_LEN || bytes[0] != VERSION {
        None
    } else {
        Some(
            FrameView {
                service: bytes[1],
                channel: crate::wire::be::from_be16(bytes[2], bytes[3]),
                flags: bytes[4],
                seq: crate::wire::be::from_be32(bytes[5], bytes[6], bytes[7], bytes[8]),
                payload: bytes.skip(9),
            },
        )
    }
}

impl Frame {
    pub fn encode(&self) -> (r: Vec<u8>)
        ensures
            r@ == frame_bytes(self@),
    {
        let mut out: Vec<u8> = Vec::new();
        out.push(VERSION);
        out.push(self.service);
        push_be16(&mut out, self.channel);
        out.push(self.flags);
        push_be32(&mut out, self.seq);
        push_bytes(&mut out, self.payload.as_slice());
        assert(out@ =~= frame_bytes(self@));
        out
    }

    pub fn decode(bytes: &[u8]) -> (r: Option<Frame>)
        ensures
            match r {
                Some(f) => frame_of(bytes@) == Some(f@),
                None => frame_of(bytes@) is None,
            },
    {
        if bytes.len() < HEADER_LEN || bytes[0] != VERSION {
            return None;
        }
        let f = Frame {
            service: bytes[1],
            channel: read_be16(bytes[2], bytes[3]),
            flags: bytes[4],
            seq: read_be32(bytes[5], bytes[6], bytes[7], bytes[8]),
            payload: copy_range(bytes, HEADER_LEN, bytes.len()),
        };
        assert(f.payload@ =~= bytes@.skip(9));
        Some(f)
    }

    pub fn is_datagram(&self) -> (r: bool)
        ensures
            r == (self@.flags & FLAG_DATAGRAM != 0),
    {
        self.flags & FLAG_DATAGRAM != 0
    }
}

/// Decoding the bytes of a frame gives the frame back.
pub proof fn law_decode_encode(f: FrameView)
    ensures
        frame_of(frame_bytes(f)) == Some(f),
{
    let b = frame_bytes(f);
    crate::wire::be::law_be16_round_trip(f.channel);
    crate::wire::be::law_be32_round_trip(f.seq);
    assert(b.subrange(2, 4) =~= crate::wire::be::be16(f.channel));
    assert(b.subrange(5, 9) =~= crate::wire::be::be32(f.seq));
    assert(b[2] == b.subrange(2, 4)[0] && b[3] == b.subrange(2, 4)[1]);
    assert(b[5] == b.subrange(5, 9)[0] && b[6] == b.subrange(5, 9)[1]);
    assert(b[7] == b.subrange(5, 9)[2] && b[8] == b.subrange(5, 9)[3]);
    assert(b.skip(9) =~= f.payload);
}

/// Encoding a decoded frame gives back the bytes it was decoded from.
pub proof fn law_encode_decode(bytes: Seq<u8>)
    ensures
        frame_of(bytes) matches Some(f) ==> frame_bytes(f) == bytes,
{
    if let Some(f) = frame_of(bytes) {
        crate::wire::be::law_from_be16_round_trip(bytes[2], bytes[3]);
        crate::wire::be::law_from_be32_round_trip(bytes[5], bytes[6], bytes[7], bytes[8]);
        assert(frame_bytes(f) =~= bytes);
    }
}

} // verus!
