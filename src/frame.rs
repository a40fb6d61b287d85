use vstd::prelude::*;

use crate::config::VARINT_MAX;
use crate::error::H3_FRAME_ERROR;
use crate::settings::{
    decode_settings, encode_settings, lemma_settings_round_trip, spec_empty_settings,
    spec_settings_bytes, spec_settings_parse, Settings,
};
use crate::varint::{
    decode_varint, encode_varint, lemma_varint_parse_len, lemma_varint_round_trip,
    spec_varint_bytes, spec_varint_parse,
};

verus! {

pub const FRAME_DATA: u64 = 0x0;

pub const FRAME_HEADERS: u64 = 0x1;

pub const FRAME_CANCEL_PUSH: u64 = 0x3;

pub const FRAME_SETTINGS: u64 = 0x4;

pub const FRAME_PUSH_PROMISE: u64 = 0x5;

pub const FRAME_GOAWAY: u64 = 0x7;

pub const FRAME_MAX_PUSH_ID: u64 = 0xd;

/// An HTTP/3 frame.
#[derive(Clone, Debug)]
pub enum Frame {
    /// A chunk of a message body.
    Data(Vec<u8>),
    /// A compressed header block.
    Headers(Vec<u8>),
    /// Cancels a server push.
    CancelPush(u64),
    /// The sender's settings.
    Settings(Settings),
    /// Announces a server push; its payload is kept as it came.
    PushPromise(Vec<u8>),
    /// Shutdown boundary: the last stream id the sender will still process.
    Goaway(u64),
    /// The largest push id the sender permits.
    MaxPushId(u64),
    /// A frame of a type this side does not know, payload skipped.
    Unknown(u64),
}

/// Mathematical form of a frame.
pub enum FrameModel {
    Data(Seq<u8>),
    Headers(Seq<u8>),
    CancelPush(u64),
    Settings(Settings),
    PushPromise(Seq<u8>),
    Goaway(u64),
    MaxPushId(u64),
    Unknown(u64),
}

impl View for Frame {
    type V = FrameModel;

    open spec fn view(&self) -> FrameModel {
        match self {
            Frame::Data(d) => FrameModel::Data(d@),
            Frame::Headers(h) => FrameModel::Headers(h@),
            Frame::CancelPush(id) => FrameModel::CancelPush(*id),
            Frame::Settings(s) => FrameModel::Settings(*s),
            Frame::PushPromise(p) => FrameModel::PushPromise(p@),
            Frame::Goaway(id) => FrameModel::Goaway(*id),
            Frame::MaxPushId(id) => FrameModel::MaxPushId(*id),
            Frame::Unknown(t) => FrameModel::Unknown(*t),
        }
    }
}

/// Outcome of reading a frame at the front of a byte sequence.
pub enum FrameParse {
    /// More bytes are needed.
    Incomplete,
    /// The frame is malformed; the error code says how.
    Malformed(u64),
    /// A frame and the number of bytes it takes.
    Complete(FrameModel, nat),
}

/// A payload made of exactly one varint.
pub open spec fn spec_single_varint(p: Seq<u8>) -> Option<u64> {
    match spec_varint_parse(p) {
        Some((v, n)) => if n == p.len() {
            Some(v)
        } else {
            None
        },
        None => None,
    }
}

/// The frame of type `ty` with payload `p`, or the error code of a malformed payload.
pub open spec fn spec_frame_payload(ty: u64, p: Seq<u8>) -> Result<FrameModel, u64> {
    if ty == FRAME_DATA {
        Ok(FrameModel::Data(p))
    } else if ty == FRAME_HEADERS {
        Ok(FrameModel::Headers(p))
    } else if ty == FRAME_SETTINGS {
        match spec_settings_parse(p, spec_empty_settings()) {
            Ok(s) => Ok(FrameModel::Settings(s)),
            Err(c) => Err(c),
        }
    } else if ty == FRAME_PUSH_PROMISE {
        Ok(FrameModel::PushPromise(p))
    } else if ty == FRAME_CANCEL_PUSH || ty == FRAME_GOAWAY || ty == FRAME_MAX_PUSH_ID {
        match spec_single_varint(p) {
            None => Err(H3_FRAME_ERROR),
            Some(v) => Ok(
                if ty == FRAME_CANCEL_PUSH {
                    FrameModel::CancelPush(v)
                } else if ty == FRAME_GOAWAY {
                    FrameModel::Goaway(v)
                } else {
                    FrameModel::MaxPushId(v)
                },
            ),
        }
    } else {
        Ok(FrameModel::Unknown(ty))
    }
}

/// Reads the frame at the front of `s`: type varint, length varint, then that many bytes.
pub open spec fn spec_frame_parse(s: Seq<u8>) -> FrameParse {
    match spec_varint_parse(s) {
        None => FrameParse::Incomplete,
        Some((ty, n1)) => match spec_varint_parse(s.skip(n1 as int)) {
            None => FrameParse::Incomplete,
            Some((len, n2)) => if s.len() < n1 + n2 + len {
                FrameParse::Incomplete
            } else {
                match spec_frame_payload(ty, s.subrange((n1 + n2) as int, (n1 + n2 + len) as int)) {
                    Err(c) => FrameParse::Malformed(c),
                    Ok(f) => FrameParse::Complete(f, (n1 + n2 + len) as nat),
                }
            },
        },
    }
}

/// Type and payload of a frame as written on the wire.
pub open spec fn spec_frame_parts(f: FrameModel) -> (u64, Seq<u8>) {
    match f {
        FrameModel::Data(d) => (FRAME_DATA, d),
        FrameModel::Headers(h) => (FRAME_HEADERS, h),
        FrameModel::CancelPush(id) => (FRAME_CANCEL_PUSH, spec_varint_bytes(id)),
        FrameModel::Settings(s) => (FRAME_SETTINGS, spec_settings_bytes(s)),
        FrameModel::PushPromise(p) => (FRAME_PUSH_PROMISE, p),
        FrameModel::Goaway(id) => (FRAME_GOAWAY, spec_varint_bytes(id)),
        FrameModel::MaxPushId(id) => (FRAME_MAX_PUSH_ID, spec_varint_bytes(id)),
        FrameModel::Unknown(t) => (t, Seq::empty()),
    }
}

/// The bytes of a frame: type, payload length, payload.
pub open spec fn spec_frame_bytes(f: FrameModel) -> Seq<u8> {
    let (ty, p) = spec_frame_parts(f);
    spec_varint_bytes(ty) + spec_varint_bytes(p.len() as u64) + p
}

/// Whether every number in the frame fits a varint.
pub open spec fn frame_encodable(f: FrameModel) -> bool {
    match f {
        FrameModel::Data(d) => d.len() <= VARINT_MAX,
        FrameModel::Headers(h) => h.len() <= VARINT_MAX,
        FrameModel::CancelPush(id) => id <= VARINT_MAX,
        FrameModel::Settings(s) => s.wf(),
        FrameModel::PushPromise(p) => p.len() <= VARINT_MAX,
        FrameModel::Goaway(id) => id <= VARINT_MAX,
        FrameModel::MaxPushId(id) => id <= VARINT_MAX,
        FrameModel::Unknown(t) => t <= VARINT_MAX,
    }
}

fn copy_bytes(buf: &mut Vec<u8>, src: &[u8])
    ensures
        final(buf)@ == old(buf)@ + src@,
{
    let ghost b0 = buf@;
    let mut i: usize = 0;
    while i < src.len()
        invariant
            i <= src@.len(),
            buf@ == b0 + src@.subrange(0, i as int),
        decreases src@.len() - i,
    {
        buf.push(src[i]);
        i = i + 1;
        assert(buf@ =~= b0 + src@.subrange(0, i as int));
    }
    assert(src@.subrange(0, i as int) =~= src@);
}

/// Appends the bytes of `f` to `buf`.
pub fn encode_frame(buf: &mut Vec<u8>, f: &Frame)
    requires
        frame_encodable(f@),
    ensures
        final(buf)@ == old(buf)@ + spec_frame_bytes(f@),
{
    let ghost b0 = buf@;
    let mut payload: Vec<u8> = Vec::new();
    let ty: u64 = match f {
        Frame::Data(d) => {
            copy_bytes(&mut payload, d.as_slice());
            FRAME_DATA
        },
        Frame::Headers(h) => {
            copy_bytes(&mut payload, h.as_slice());
            FRAME_HEADERS
        },
        Frame::CancelPush(id) => {
            encode_varint(&mut payload, *id);
            FRAME_CANCEL_PUSH
        },
        Frame::Settings(s) => {
            encode_settings(&mut payload, s);
            FRAME_SETTINGS
        },
        Frame::PushPromise(p) => {
            copy_bytes(&mut payload, p.as_slice());
            FRAME_PUSH_PROMISE
        },
        Frame::Goaway(id) => {
            encode_varint(&mut payload, *id);
            FRAME_GOAWAY
        },
        Frame::MaxPushId(id) => {
            encode_varint(&mut payload, *id);
            FRAME_MAX_PUSH_ID
        },
        Frame::Unknown(t) => *t,
    };
    assert(payload@ =~= spec_frame_parts(f@).1);
    proof {
        lemma_frame_parts_encodable(f@);
    }
    encode_varint(buf, ty);
    encode_varint(buf, payload.len() as u64);
    copy_bytes(buf, payload.as_slice());
    assert(buf@ =~= b0 + spec_frame_bytes(f@));
}

proof fn lemma_frame_parts_encodable(f: FrameModel)
    requires
        frame_encodable(f),
    ensures
        spec_frame_parts(f).0 <= VARINT_MAX,
        spec_frame_parts(f).1.len() <= VARINT_MAX,
{
    match f {
        FrameModel::CancelPush(id) => lemma_varint_round_trip(id, Seq::empty()),
        FrameModel::Goaway(id) => lemma_varint_round_trip(id, Seq::empty()),
        FrameModel::MaxPushId(id) => lemma_varint_round_trip(id, Seq::empty()),
        FrameModel::Settings(s) => lemma_settings_bytes_len(s),
        _ => {},
    }
}

proof fn lemma_settings_bytes_len(s: Settings)
    requires
        s.wf(),
    ensures
        spec_settings_bytes(s).len() <= 80,
{
    let e = Seq::<u8>::empty();
    lemma_varint_round_trip(crate::settings::SETTINGS_MAX_FIELD_SECTION_SIZE, e);
    lemma_varint_round_trip(crate::settings::SETTINGS_ENABLE_CONNECT_PROTOCOL, e);
    lemma_varint_round_trip(crate::settings::SETTINGS_H3_DATAGRAM, e);
    lemma_varint_round_trip(crate::settings::SETTINGS_ENABLE_WEBTRANSPORT, e);
    lemma_varint_round_trip(crate::settings::SETTINGS_WEBTRANSPORT_MAX_SESSIONS, e);
    if let Some(v) = s.max_field_section_size {
        lemma_varint_round_trip(v, e);
    }
    if let Some(v) = s.enable_connect_protocol {
        lemma_varint_round_trip(v, e);
    }
    if let Some(v) = s.h3_datagram {
        lemma_varint_round_trip(v, e);
    }
    if let Some(v) = s.enable_webtransport {
        lemma_varint_round_trip(v, e);
    }
    if let Some(v) = s.webtransport_max_sessions {
        lemma_varint_round_trip(v, e);
    }
    assert(e + e == e);
}

fn to_vec(src: &[u8]) -> (r: Vec<u8>)
    ensures
        r@ == src@,
{
    let mut r: Vec<u8> = Vec::new();
    copy_bytes(&mut r, src);
    r
}

fn decode_single_varint(p: &[u8]) -> (r: Option<u64>)
    ensures
        r == spec_single_varint(p@),
{
    assert(p@.skip(0) =~= p@);
    match decode_varint(p, 0) {
        Some((v, n)) => if n == p.len() {
            Some(v)
        } else {
            None
        },
        None => None,
    }
}

fn decode_payload(ty: u64, p: &[u8]) -> (r: Result<Frame, u64>)
    ensures
        match spec_frame_payload(ty, p@) {
            Ok(f) => r matches Ok(fr) && fr@ == f,
            Err(c) => r == Err::<Frame, u64>(c),
        },
{
    if ty == FRAME_DATA {
        Ok(Frame::Data(to_vec(p)))
    } else if ty == FRAME_HEADERS {
        Ok(Frame::Headers(to_vec(p)))
    } else if ty == FRAME_SETTINGS {
        match decode_settings(p) {
            Ok(s) => Ok(Frame::Settings(s)),
            Err(c) => Err(c),
        }
    } else if ty == FRAME_PUSH_PROMISE {
        Ok(Frame::PushPromise(to_vec(p)))
    } else if ty == FRAME_CANCEL_PUSH || ty == FRAME_GOAWAY || ty == FRAME_MAX_PUSH_ID {
        match decode_single_varint(p) {
            None => Err(H3_FRAME_ERROR),
            Some(v) => Ok(
                if ty == FRAME_CANCEL_PUSH {
                    Frame::CancelPush(v)
                } else if ty == FRAME_GOAWAY {
                    Frame::Goaway(v)
                } else {
                    Frame::MaxPushId(v)
                },
            ),
        }
    } else {
        Ok(Frame::Unknown(ty))
    }
}

/// Reads the frame at the front of `buf`: `Ok(None)` when more bytes are needed,
/// `Ok(Some((frame, n)))` for a frame of `n` bytes, `Err(code)` for a malformed one.
pub fn decode_frame(buf: &[u8]) -> (r: Result<Option<(Frame, usize)>, u64>)
    ensures
        match spec_frame_parse(buf@) {
            FrameParse::Incomplete => r matches Ok(None),
            FrameParse::Malformed(c) => r == Err::<Option<(Frame, usize)>, u64>(c),
            FrameParse::Complete(f, n) => r matches Ok(Some((fr, m))) && fr@ == f && m == n,
        },
{
    assert(buf@.skip(0) =~= buf@);
    proof {
        lemma_varint_parse_len(buf@);
    }
    let (ty, p1) = match decode_varint(buf, 0) {
        None => return Ok(None),
        Some(x) => x,
    };
    proof {
        lemma_varint_parse_len(buf@.skip(p1 as int));
    }
    let (len, p2) = match decode_varint(buf, p1) {
        None => return Ok(None),
        Some(x) => x,
    };
    if len > (buf.len() - p2) as u64 {
        return Ok(None);
    }
    let end = p2 + len as usize;
    let payload = &buf[p2..end];
    assert(payload@ =~= buf@.subrange(p2 as int, end as int));
    match decode_payload(ty, payload) {
        Err(c) => Err(c),
        Ok(f) => Ok(Some((f, end))),
    }
}

/// Reading the bytes written for a frame gives back the same frame and its full length.
pub proof fn lemma_frame_round_trip(f: FrameModel, rest: Seq<u8>)
    requires
        frame_encodable(f),
        spec_frame_payload(spec_frame_parts(f).0, spec_frame_parts(f).1) == Ok::<FrameModel, u64>(f),
    ensures
        spec_frame_parse(spec_frame_bytes(f) + rest) == FrameParse::Complete(f, spec_frame_bytes(f).len()),
{
    let (ty, p) = spec_frame_parts(f);
    lemma_frame_parts_encodable(f);
    let s = spec_frame_bytes(f) + rest;
    let lenb = spec_varint_bytes(p.len() as u64);
    lemma_varint_round_trip(ty, lenb + p + rest);
    lemma_varint_round_trip(p.len() as u64, p + rest);
    let n1 = spec_varint_bytes(ty).len();
    let n2 = lenb.len();
    assert(s =~= spec_varint_bytes(ty) + (lenb + p + rest));
    assert(s.skip(n1 as int) =~= lenb + (p + rest));
    assert(s.subrange((n1 + n2) as int, (n1 + n2 + p.len()) as int) =~= p);
}

/// Reading the bytes written for a settings frame gives back the same recognized settings.
pub proof fn lemma_settings_frame_round_trip(s: Settings)
    requires
        s.wf(),
    ensures
        spec_frame_parse(spec_frame_bytes(FrameModel::Settings(s))) == FrameParse::Complete(
            FrameModel::Settings(s),
            spec_frame_bytes(FrameModel::Settings(s)).len(),
        ),
{
    lemma_settings_round_trip(s);
    let f = FrameModel::Settings(s);
    lemma_frame_round_trip(f, Seq::empty());
    assert(spec_frame_bytes(f) + Seq::<u8>::empty() =~= spec_frame_bytes(f));
}

} // verus!
