//! The envelope that carries one step of one call over the shared connection,
//! and its encoding.
//!
//! A frame on the wire is a header of fifteen bytes followed by the method
//! name and the payload:
//!
//! | bytes  | field                                        |
//! |--------|----------------------------------------------|
//! | 0..8   | call id, most significant byte first         |
//! | 8      | flags: 1 data, 2 half-close, 4 cancel, 8 error |
//! | 9..11  | length of the method name                    |
//! | 11..15 | length of the payload                        |
//!
//! The header gives both lengths, so a frame delimits itself.

use vstd::prelude::*;
use crate::bytes::{
    append_bytes, be16, be32, be64, copy_range, from_be16, from_be32, from_be64, get_be16, get_be32,
    get_be64, lemma_be16_read, lemma_be16_write, lemma_be32_read, lemma_be32_write, lemma_be64_read,
    lemma_be64_write, put_be16, put_be32, put_be64,
};
use crate::error::MuxError;

verus! {

/// Bytes of a frame before the method name.
pub const HEADER_LEN: usize = 15;

/// The longest method name a frame can carry.
pub const MAX_METHOD_LEN: usize = 0xFFFF;

/// The longest payload a frame can carry.
pub const MAX_PAYLOAD_LEN: usize = 0xFFFF_FFFF;

/// The stream-control flags of a frame.
#[derive(Clone, Copy, Debug, PartialEq, Eq, Structural)]
pub struct Flags {
    /// The payload is data of the call.
    pub data: bool,
    /// The sender will send no more data on the call.
    pub half_close: bool,
    /// The sender abandons the call.
    pub cancel: bool,
    /// The payload is a failure, to be delivered in place of further data.
    pub error: bool,
}

impl Flags {
    /// The combinations a frame may carry: `cancel` alone, `error` alone, or
    /// `data`, `half_close` or both.
    pub open spec fn valid(self) -> bool {
        if self.cancel {
            !self.data && !self.half_close && !self.error
        } else if self.error {
            !self.data && !self.half_close
        } else {
            self.data || self.half_close
        }
    }

    /// The flags as one byte on the wire.
    pub open spec fn spec_byte(self) -> u8 {
        ((if self.data { 1int } else { 0int }) + (if self.half_close { 2int } else { 0int }) + (if self.cancel {
            4int
        } else {
            0int
        }) + (if self.error { 8int } else { 0int })) as u8
    }

    /// The flags that the low four bits of a byte spell.
    pub open spec fn spec_from_byte(b: u8) -> Flags {
        Flags {
            data: b % 2 == 1,
            half_close: (b / 2) % 2 == 1,
            cancel: (b / 4) % 2 == 1,
            error: (b / 8) % 2 == 1,
        }
    }

    /// Whether the flags are a combination that a frame may carry.
    pub fn is_valid(self) -> (ok: bool)
        ensures
            ok == self.valid(),
    {
        if self.cancel {
            !self.data && !self.half_close && !self.error
        } else if self.error {
            !self.data && !self.half_close
        } else {
            self.data || self.half_close
        }
    }

    /// The flags as one byte on the wire.
    pub fn to_byte(self) -> (b: u8)
        ensures
            b == self.spec_byte(),
            b < 16,
    {
        let mut b: u8 = 0;
        if self.data {
            b = b + 1;
        }
        if self.half_close {
            b = b + 2;
        }
        if self.cancel {
            b = b + 4;
        }
        if self.error {
            b = b + 8;
        }
        b
    }

    /// The flags that the low four bits of a byte spell.
    pub fn from_byte(b: u8) -> (flags: Flags)
        ensures
            flags == Self::spec_from_byte(b),
    {
        Flags {
            data: b % 2 == 1,
            half_close: (b / 2) % 2 == 1,
            cancel: (b / 4) % 2 == 1,
            error: (b / 8) % 2 == 1,
        }
    }

    /// A flag byte below sixteen and the flags it spells determine each other.
    pub proof fn lemma_byte_round_trip(self, b: u8)
        ensures
            Self::spec_from_byte(self.spec_byte()) == self,
            self.spec_byte() < 16,
            b < 16 ==> Self::spec_from_byte(b).spec_byte() == b,
    {
    }
}

/// One frame: a step of the call `call_id`.
///
/// `method` is empty on every frame but the one that opens a call.
#[derive(Clone, Debug, PartialEq, Eq)]
pub struct Frame {
    pub call_id: u64,
    pub method: Vec<u8>,
    pub flags: Flags,
    pub payload: Vec<u8>,
}

/// What a frame holds, as plain values.
pub struct FrameView {
    pub call_id: u64,
    pub method: Seq<u8>,
    pub flags: Flags,
    pub payload: Seq<u8>,
}

impl View for Frame {
    type V = FrameView;

    open spec fn view(&self) -> FrameView {
        FrameView {
            call_id: self.call_id,
            method: self.method@,
            flags: self.flags,
            payload: self.payload@,
        }
    }
}

impl FrameView {
    /// Whether the frame opens a call.
    pub open spec fn opens(self) -> bool {
        self.method.len() > 0
    }

    /// The frames that have an encoding: the flags are a valid combination,
    /// the lengths fit their header fields, a `cancel` frame carries nothing,
    /// an `error` frame carries a failure code and opens no call, and only
    /// `data` and `error` frames carry a payload.
    pub open spec fn wf(self) -> bool {
        &&& self.flags.valid()
        &&& self.method.len() <= MAX_METHOD_LEN
        &&& self.payload.len() <= MAX_PAYLOAD_LEN
        &&& (self.flags.cancel ==> self.method.len() == 0 && self.payload.len() == 0)
        &&& (self.flags.error ==> self.method.len() == 0 && self.payload.len() >= 1
            && MuxError::spec_from_code(self.payload[0]) is Some)
        &&& (!self.flags.data && !self.flags.error ==> self.payload.len() == 0)
    }

    /// The failure that an `error` frame carries.
    pub open spec fn failure(self) -> MuxError
        recommends
            self.wf(),
            self.flags.error,
    {
        MuxError::spec_from_code(self.payload[0]).unwrap()
    }
}

/// The bytes of a frame on the wire.
pub open spec fn spec_encode(f: FrameView) -> Seq<u8> {
    be64(f.call_id) + seq![f.flags.spec_byte()] + be16(f.method.len() as u16) + be32(
        f.payload.len() as u32,
    ) + f.method + f.payload
}

/// The frame that a byte string spells, if it spells one.
pub open spec fn spec_decode(b: Seq<u8>) -> Option<FrameView> {
    if b.len() < HEADER_LEN {
        None
    } else {
        let method_len = from_be16(b, 9) as int;
        let payload_len = from_be32(b, 11) as int;
        let f = FrameView {
            call_id: from_be64(b, 0),
            method: b.subrange(HEADER_LEN as int, HEADER_LEN + method_len),
            flags: Flags::spec_from_byte(b[8]),
            payload: b.subrange(HEADER_LEN + method_len, HEADER_LEN + method_len + payload_len),
        };
        if b[8] < 16 && b.len() == HEADER_LEN + method_len + payload_len && f.wf() {
            Some(f)
        } else {
            None
        }
    }
}

/// The length of the frame whose header the bytes start with, if they hold a
/// whole header.
pub open spec fn spec_frame_len(b: Seq<u8>) -> Option<int> {
    if b.len() < HEADER_LEN {
        None
    } else {
        Some(HEADER_LEN + from_be16(b, 9) + from_be32(b, 11))
    }
}

/// A frame delimits itself: where the encoding of a frame is followed by
/// any other bytes, its header gives the length of the encoding.
pub proof fn lemma_frame_delimits_itself(f: FrameView, rest: Seq<u8>)
    requires
        f.wf(),
    ensures
        spec_frame_len(spec_encode(f) + rest) == Some(spec_encode(f).len() as int),
        (spec_encode(f) + rest).subrange(0, spec_encode(f).len() as int) == spec_encode(f),
{
    let e = spec_encode(f);
    let b = e + rest;
    let m = f.method.len() as int;
    let p = f.payload.len() as int;
    assert(be64(f.call_id).len() == 8);
    assert(be16(m as u16).len() == 2);
    assert(be32(p as u32).len() == 4);
    assert(e.len() == HEADER_LEN + m + p);
    assert(b.subrange(9, 11) =~= be16(m as u16));
    assert(b.subrange(11, 15) =~= be32(p as u32));
    lemma_be16_read(b, 9, m as u16);
    lemma_be32_read(b, 11, p as u32);
    assert(b.subrange(0, e.len() as int) =~= e);
}

/// Decoding undoes encoding: what a well-formed frame is encoded to spells
/// that frame.
pub proof fn lemma_decode_encode(f: FrameView)
    requires
        f.wf(),
    ensures
        spec_decode(spec_encode(f)) == Some(f),
{
    let b = spec_encode(f);
    let m = f.method.len() as int;
    let p = f.payload.len() as int;
    assert(be64(f.call_id).len() == 8);
    assert(be16(m as u16).len() == 2);
    assert(be32(p as u32).len() == 4);
    assert(b.len() == HEADER_LEN + m + p);
    assert(b.subrange(0, 8) =~= be64(f.call_id));
    assert(b.subrange(9, 11) =~= be16(m as u16));
    assert(b.subrange(11, 15) =~= be32(p as u32));
    lemma_be64_read(b, 0, f.call_id);
    lemma_be16_read(b, 9, m as u16);
    lemma_be32_read(b, 11, p as u32);
    assert(b[8] == f.flags.spec_byte());
    f.flags.lemma_byte_round_trip(0);
    assert(b.subrange(HEADER_LEN as int, HEADER_LEN + m) =~= f.method);
    assert(b.subrange(HEADER_LEN + m, HEADER_LEN + m + p) =~= f.payload);
}

/// Encoding undoes decoding: a byte string that spells a frame is the
/// encoding of that frame, and the frame is well-formed. So no two byte
/// strings spell the same frame.
pub proof fn lemma_encode_decode(b: Seq<u8>)
    requires
        spec_decode(b) is Some,
    ensures
        spec_decode(b).unwrap().wf(),
        spec_encode(spec_decode(b).unwrap()) == b,
{
    let f = spec_decode(b).unwrap();
    let m = f.method.len() as int;
    let p = f.payload.len() as int;
    assert(m == from_be16(b, 9));
    assert(p == from_be32(b, 11));
    lemma_be64_write(b, 0);
    lemma_be16_write(b, 9);
    lemma_be32_write(b, 11);
    Flags::spec_from_byte(b[8]).lemma_byte_round_trip(b[8]);
    assert(spec_encode(f) =~= b.subrange(0, 8) + seq![b[8]] + b.subrange(9, 11) + b.subrange(11, 15)
        + b.subrange(HEADER_LEN as int, HEADER_LEN + m) + b.subrange(
        HEADER_LEN + m,
        HEADER_LEN + m + p,
    ));
    assert(spec_encode(f) =~= b);
}

impl Frame {
    /// The frame that opens a call: it names the method, carries the first
    /// payload, and closes the sending direction at once where `half_close`
    /// is set.
    pub fn open(call_id: u64, method: Vec<u8>, payload: Vec<u8>, half_close: bool) -> (f: Frame)
        ensures
            f@ == (FrameView {
                call_id,
                method: method@,
                flags: Flags { data: true, half_close, cancel: false, error: false },
                payload: payload@,
            }),
    {
        Frame {
            call_id,
            method,
            flags: Flags { data: true, half_close, cancel: false, error: false },
            payload,
        }
    }

    /// A frame of data on a call that is already open.
    pub fn data(call_id: u64, payload: Vec<u8>) -> (f: Frame)
        ensures
            f@ == (FrameView {
                call_id,
                method: Seq::<u8>::empty(),
                flags: Flags { data: true, half_close: false, cancel: false, error: false },
                payload: payload@,
            }),
    {
        Frame {
            call_id,
            method: Vec::new(),
            flags: Flags { data: true, half_close: false, cancel: false, error: false },
            payload,
        }
    }

    /// The last frame of data on a call: it also closes the sender's
    /// direction.
    pub fn last_data(call_id: u64, payload: Vec<u8>) -> (f: Frame)
        ensures
            f@ == (FrameView {
                call_id,
                method: Seq::<u8>::empty(),
                flags: Flags { data: true, half_close: true, cancel: false, error: false },
                payload: payload@,
            }),
    {
        Frame {
            call_id,
            method: Vec::new(),
            flags: Flags { data: true, half_close: true, cancel: false, error: false },
            payload,
        }
    }

    /// The frame that closes the sender's direction of a call.
    pub fn half_close(call_id: u64) -> (f: Frame)
        ensures
            f@ == (FrameView {
                call_id,
                method: Seq::<u8>::empty(),
                flags: Flags { data: false, half_close: true, cancel: false, error: false },
                payload: Seq::<u8>::empty(),
            }),
            f@.wf(),
    {
        Frame {
            call_id,
            method: Vec::new(),
            flags: Flags { data: false, half_close: true, cancel: false, error: false },
            payload: Vec::new(),
        }
    }

    /// The frame that cancels a call.
    pub fn cancel(call_id: u64) -> (f: Frame)
        ensures
            f@ == (FrameView {
                call_id,
                method: Seq::<u8>::empty(),
                flags: Flags { data: false, half_close: false, cancel: true, error: false },
                payload: Seq::<u8>::empty(),
            }),
            f@.wf(),
    {
        Frame {
            call_id,
            method: Vec::new(),
            flags: Flags { data: false, half_close: false, cancel: true, error: false },
            payload: Vec::new(),
        }
    }

    /// The frame that fails a call with `failure`. Its payload is the code of
    /// the failure followed by `detail`.
    pub fn error(call_id: u64, failure: MuxError, detail: &[u8]) -> (f: Frame)
        ensures
            f@ == (FrameView {
                call_id,
                method: Seq::<u8>::empty(),
                flags: Flags { data: false, half_close: false, cancel: false, error: true },
                payload: seq![failure.spec_code()] + detail@,
            }),
            f@.failure() == failure,
            f@.wf() <==> 1 + detail@.len() <= MAX_PAYLOAD_LEN,
    {
        let mut payload: Vec<u8> = Vec::new();
        payload.push(failure.code());
        append_bytes(&mut payload, detail);
        proof {
            MuxError::lemma_code_round_trip(failure, 0);
            assert(payload@ =~= seq![failure.spec_code()] + detail@);
        }
        Frame {
            call_id,
            method: Vec::new(),
            flags: Flags { data: false, half_close: false, cancel: false, error: true },
            payload,
        }
    }

    /// Whether the frame has an encoding.
    pub fn is_well_formed(&self) -> (ok: bool)
        ensures
            ok == self@.wf(),
    {
        let m: usize = self.method.len();
        let p: usize = self.payload.len();
        if !self.flags.is_valid() || m > MAX_METHOD_LEN || p > MAX_PAYLOAD_LEN {
            return false;
        }
        if self.flags.cancel {
            m == 0 && p == 0
        } else if self.flags.error {
            m == 0 && p >= 1 && MuxError::from_code(self.payload[0]).is_some()
        } else {
            self.flags.data || p == 0
        }
    }

    /// A frame that holds what this one holds.
    pub fn duplicate(&self) -> (f: Frame)
        ensures
            f@ == self@,
    {
        let method = copy_range(self.method.as_slice(), 0, self.method.len());
        let payload = copy_range(self.payload.as_slice(), 0, self.payload.len());
        assert(method@ =~= self.method@);
        assert(payload@ =~= self.payload@);
        Frame { call_id: self.call_id, method, flags: self.flags, payload }
    }
}

/// Encodes a frame for the wire. A frame that is not well-formed has no
/// encoding and is refused.
pub fn encode(frame: &Frame) -> (r: Result<Vec<u8>, MuxError>)
    ensures
        match r {
            Ok(bytes) => frame@.wf() && bytes@ == spec_encode(frame@),
            Err(e) => e == MuxError::MalformedFrame && !frame@.wf(),
        },
{
    if !frame.is_well_formed() {
        return Err(MuxError::MalformedFrame);
    }
    let mut out: Vec<u8> = Vec::new();
    put_be64(&mut out, frame.call_id);
    out.push(frame.flags.to_byte());
    put_be16(&mut out, frame.method.len() as u16);
    put_be32(&mut out, frame.payload.len() as u32);
    append_bytes(&mut out, frame.method.as_slice());
    append_bytes(&mut out, frame.payload.as_slice());
    assert(out@ =~= spec_encode(frame@));
    Ok(out)
}

/// The length of the frame whose header `bytes` starts with, for cutting a
/// stream of bytes into frames. `None` says that the header is not whole
/// yet.
pub fn frame_len(bytes: &[u8]) -> (r: Option<u64>)
    ensures
        match r {
            Some(n) => spec_frame_len(bytes@) == Some(n as int),
            None => spec_frame_len(bytes@) is None,
        },
{
    if bytes.len() < HEADER_LEN {
        return None;
    }
    let method_len: u16 = get_be16(bytes, 9);
    let payload_len: u32 = get_be32(bytes, 11);
    Some(HEADER_LEN as u64 + method_len as u64 + payload_len as u64)
}

/// Decodes the bytes of one frame. Bytes that are not the encoding of a
/// well-formed frame are refused as `MalformedFrame`: a header cut short, a
/// length that does not match, an unknown flag, a combination of flags that
/// no frame carries.
pub fn decode(bytes: &[u8]) -> (r: Result<Frame, MuxError>)
    ensures
        match r {
            Ok(frame) => spec_decode(bytes@) == Some(frame@),
            Err(e) => e == MuxError::MalformedFrame && spec_decode(bytes@) is None,
        },
{
    let n: usize = bytes.len();
    if n < HEADER_LEN {
        return Err(MuxError::MalformedFrame);
    }
    let call_id: u64 = get_be64(bytes, 0);
    let flag_byte: u8 = bytes[8];
    let method_len: u16 = get_be16(bytes, 9);
    let payload_len: u32 = get_be32(bytes, 11);
    let body: u64 = method_len as u64 + payload_len as u64;
    if flag_byte >= 16 || (n - HEADER_LEN) as u64 != body {
        return Err(MuxError::MalformedFrame);
    }
    let method_end: usize = HEADER_LEN + method_len as usize;
    let frame = Frame {
        call_id,
        method: copy_range(bytes, HEADER_LEN, method_end),
        flags: Flags::from_byte(flag_byte),
        payload: copy_range(bytes, method_end, n),
    };
    if frame.is_well_formed() {
        Ok(frame)
    } else {
        Err(MuxError::MalformedFrame)
    }
}

} // verus!
