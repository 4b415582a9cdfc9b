//! IVF container demuxing.
//!
//! An IVF file is a 32-byte header followed by packet records. The header
//! holds a magic tag, a codec fourcc, the frame dimensions, the timebase and
//! a declared frame count. Each packet record is a 4-byte little-endian
//! payload length, an 8-byte little-endian presentation timestamp, and the
//! payload bytes themselves.

use vstd::prelude::*;
use vstd::slice::{slice_subrange, slice_to_vec};

verus! {

/// Size in bytes of the fixed IVF file header.
pub const HEADER_SIZE: usize = 32;

/// A parsed IVF container header.
#[derive(Debug, Clone, Copy, PartialEq, Eq, Structural)]
pub struct Header {
    /// Frame width in pixels; always non-zero for a parsed header.
    pub w: u16,
    /// Frame height in pixels; always non-zero for a parsed header.
    pub h: u16,
    /// Number of frames the container claims to hold.
    pub frame_count: u32,
    /// Timebase numerator: one timestamp unit lasts
    /// `timebase_num / timebase_den` seconds.
    pub timebase_num: u32,
    /// Timebase denominator.
    pub timebase_den: u32,
}

/// Why a byte buffer failed to parse as an IVF header.
#[derive(Debug, Clone, Copy, PartialEq, Eq, Structural)]
pub enum ContainerError {
    /// The magic tag or the codec fourcc did not match, or a dimension was
    /// zero.
    InvalidFormat,
    /// Fewer bytes than a full header.
    Truncated,
}

/// Why reading the next packet produced no packet.
#[derive(Debug, Clone, Copy, PartialEq, Eq, Structural)]
pub enum ReadError {
    /// The read position stood exactly at the end of the buffer.
    EndOfStream,
    /// A record was cut short; callers treat this like end of stream.
    Truncated,
}

/// One coded packet: an opaque payload and its presentation timestamp in
/// container timebase units.
#[derive(Debug)]
pub struct Packet {
    pub data: Vec<u8>,
    pub pts: u64,
}

/// The 16-bit little-endian value stored at byte offset `i`.
pub open spec fn le16_at(s: Seq<u8>, i: int) -> int {
    s[i] + 0x100 * s[i + 1]
}

/// The 32-bit little-endian value stored at byte offset `i`.
pub open spec fn le32_at(s: Seq<u8>, i: int) -> int {
    le16_at(s, i) + 0x10000 * le16_at(s, i + 2)
}

/// The 64-bit little-endian value stored at byte offset `i`.
pub open spec fn le64_at(s: Seq<u8>, i: int) -> int {
    le32_at(s, i) + 0x1_0000_0000 * le32_at(s, i + 4)
}

/// The first four bytes spell "DKIF".
pub open spec fn magic_ok(s: Seq<u8>) -> bool {
    s[0] == 0x44u8 && s[1] == 0x4bu8 && s[2] == 0x49u8 && s[3] == 0x46u8
}

/// Bytes 8..12 spell "AV01".
pub open spec fn codec_ok(s: Seq<u8>) -> bool {
    s[8] == 0x41u8 && s[9] == 0x56u8 && s[10] == 0x30u8 && s[11] == 0x31u8
}

/// The header encoded by a byte buffer whose tags already checked out.
pub open spec fn spec_header_of(s: Seq<u8>) -> Header {
    Header {
        w: le16_at(s, 12) as u16,
        h: le16_at(s, 14) as u16,
        timebase_den: le32_at(s, 16) as u32,
        timebase_num: le32_at(s, 20) as u32,
        frame_count: le32_at(s, 24) as u32,
    }
}

/// What parsing a byte buffer as an IVF header yields: the header when the
/// buffer is long enough, both tags match and both dimensions are non-zero;
/// the exact error otherwise.
pub open spec fn spec_read_header(s: Seq<u8>) -> Result<Header, ContainerError> {
    if s.len() < 32 {
        Err(ContainerError::Truncated)
    } else if !magic_ok(s) || !codec_ok(s) {
        Err(ContainerError::InvalidFormat)
    } else if le16_at(s, 12) == 0 || le16_at(s, 14) == 0 {
        Err(ContainerError::InvalidFormat)
    } else {
        Ok(spec_header_of(s))
    }
}

/// Reads the 16-bit little-endian value at `pos`.
fn read_u16_le(data: &Vec<u8>, pos: usize) -> (r: u16)
    requires
        pos + 2 <= data@.len(),
    ensures
        r == le16_at(data@, pos as int),
{
    let _n: usize = data.len();
    data[pos] as u16 + 0x100 * (data[pos + 1] as u16)
}

/// Reads the 32-bit little-endian value at `pos`.
fn read_u32_le(data: &Vec<u8>, pos: usize) -> (r: u32)
    requires
        pos + 4 <= data@.len(),
    ensures
        r == le32_at(data@, pos as int),
{
    let _n: usize = data.len();
    read_u16_le(data, pos) as u32 + 0x10000 * (read_u16_le(data, pos + 2) as u32)
}

/// Reads the 64-bit little-endian value at `pos`.
fn read_u64_le(data: &Vec<u8>, pos: usize) -> (r: u64)
    requires
        pos + 8 <= data@.len(),
    ensures
        r == le64_at(data@, pos as int),
{
    let _n: usize = data.len();
    read_u32_le(data, pos) as u64 + 0x1_0000_0000 * (read_u32_le(data, pos + 4) as u64)
}

/// Parses an IVF header from the front of `data`.
///
/// Succeeds exactly when `data` holds at least [`HEADER_SIZE`] bytes, the
/// magic tag and codec fourcc match, and width and height are non-zero.
pub fn read_header(data: &Vec<u8>) -> (r: Result<Header, ContainerError>)
    ensures
        r == spec_read_header(data@),
{
    if data.len() < HEADER_SIZE {
        return Err(ContainerError::Truncated);
    }
    if !(data[0] == 0x44 && data[1] == 0x4b && data[2] == 0x49 && data[3] == 0x46) {
        return Err(ContainerError::InvalidFormat);
    }
    if !(data[8] == 0x41 && data[9] == 0x56 && data[10] == 0x30 && data[11] == 0x31) {
        return Err(ContainerError::InvalidFormat);
    }
    let w = read_u16_le(data, 12);
    let h = read_u16_le(data, 14);
    if w == 0 || h == 0 {
        return Err(ContainerError::InvalidFormat);
    }
    let timebase_den = read_u32_le(data, 16);
    let timebase_num = read_u32_le(data, 20);
    let frame_count = read_u32_le(data, 24);
    Ok(Header { w, h, frame_count, timebase_num, timebase_den })
}

/// Appends the 16-bit little-endian encoding of `v` to `out`.
fn push_u16_le(out: &mut Vec<u8>, v: u16)
    ensures
        final(out)@ =~= old(out)@ + seq![(v % 0x100) as u8, (v / 0x100) as u8],
{
    out.push((v % 0x100) as u8);
    out.push((v / 0x100) as u8);
}

/// Appends the 32-bit little-endian encoding of `v` to `out`.
fn push_u32_le(out: &mut Vec<u8>, v: u32)
    ensures
        final(out)@ =~= old(out)@ + seq![
            ((v % 0x10000) % 0x100) as u8,
            ((v % 0x10000) / 0x100) as u8,
            ((v / 0x10000) % 0x100) as u8,
            ((v / 0x10000) / 0x100) as u8,
        ],
{
    let lo: u16 = (v % 0x10000) as u16;
    let hi: u16 = (v / 0x10000) as u16;
    push_u16_le(out, lo);
    push_u16_le(out, hi);
}

/// The four bytes of the little-endian encoding of `v`, low byte first.
spec fn le32_bytes(v: u32) -> Seq<u8> {
    seq![
        ((v % 0x10000) % 0x100) as u8,
        ((v % 0x10000) / 0x100) as u8,
        ((v / 0x10000) % 0x100) as u8,
        ((v / 0x10000) / 0x100) as u8,
    ]
}

/// Reading back the four bytes of [`le32_bytes`] recovers the value.
proof fn lemma_le32_bytes_roundtrip(s: Seq<u8>, i: int, v: u32)
    requires
        0 <= i,
        i + 4 <= s.len(),
        s.subrange(i, i + 4) =~= le32_bytes(v),
    ensures
        le32_at(s, i) == v,
{
    assert(s[i] == ((v % 0x10000) % 0x100) as u8);
    assert(s[i + 1] == ((v % 0x10000) / 0x100) as u8);
    assert(s[i + 2] == ((v / 0x10000) % 0x100) as u8);
    assert(s[i + 3] == ((v / 0x10000) / 0x100) as u8);
    assert(le16_at(s, i) == v % 0x10000);
    assert(le16_at(s, i + 2) == v / 0x10000);
}

/// Serializes a header into the 32-byte layout that [`read_header`] accepts.
///
/// For every header with non-zero dimensions, parsing the serialized bytes
/// yields the header back: the round trip is stated in the `ensures` clause.
pub fn serialize_header(h: &Header) -> (out: Vec<u8>)
    requires
        h.w > 0,
        h.h > 0,
    ensures
        out@.len() == 32,
        spec_read_header(out@) == Ok::<Header, ContainerError>(*h),
{
    let mut out: Vec<u8> = Vec::new();
    // magic tag "DKIF"
    out.push(0x44);
    out.push(0x4b);
    out.push(0x49);
    out.push(0x46);
    // version 0, header size 32
    out.push(0);
    out.push(0);
    out.push(32);
    out.push(0);
    // codec fourcc "AV01"
    out.push(0x41);
    out.push(0x56);
    out.push(0x30);
    out.push(0x31);
    push_u16_le(&mut out, h.w);
    push_u16_le(&mut out, h.h);
    push_u32_le(&mut out, h.timebase_den);
    push_u32_le(&mut out, h.timebase_num);
    push_u32_le(&mut out, h.frame_count);
    // reserved
    out.push(0);
    out.push(0);
    out.push(0);
    out.push(0);
    proof {
        assert(out@.subrange(16, 20) =~= le32_bytes(h.timebase_den));
        assert(out@.subrange(20, 24) =~= le32_bytes(h.timebase_num));
        assert(out@.subrange(24, 28) =~= le32_bytes(h.frame_count));
        lemma_le32_bytes_roundtrip(out@, 16, h.timebase_den);
        lemma_le32_bytes_roundtrip(out@, 20, h.timebase_num);
        lemma_le32_bytes_roundtrip(out@, 24, h.frame_count);
    }
    out
}

/// Streams packets out of an in-memory IVF container.
///
/// The buffer is owned by the demuxer; the read position starts just past the
/// header and moves forward one packet record at a time. [`Demuxer::reset`]
/// moves it back for looped playback.
pub struct Demuxer {
    data: Vec<u8>,
    pos: usize,
    header: Header,
}

impl Demuxer {
    /// The demuxer's read position stays inside the buffer, past the header,
    /// and the stored header is the one the buffer encodes.
    pub closed spec fn wf(self) -> bool {
        &&& HEADER_SIZE <= self.pos <= self.data@.len()
        &&& spec_read_header(self.data@) == Ok::<Header, ContainerError>(self.header)
    }

    /// The bytes the demuxer reads from.
    pub closed spec fn bytes(self) -> Seq<u8> {
        self.data@
    }

    /// The current read position.
    pub closed spec fn position(self) -> int {
        self.pos as int
    }

    /// The parsed container header.
    pub closed spec fn spec_header(self) -> Header {
        self.header
    }

    /// Opens a container: parses and validates the header, then stands ready
    /// to read the first packet. Fails exactly when header parsing fails.
    pub fn new(data: Vec<u8>) -> (r: Result<Demuxer, ContainerError>)
        ensures
            match r {
                Ok(d) => {
                    &&& spec_read_header(data@) == Ok::<Header, ContainerError>(d.spec_header())
                    &&& d.wf()
                    &&& d.bytes() == data@
                    &&& d.position() == HEADER_SIZE
                },
                Err(e) => spec_read_header(data@) == Err::<Header, ContainerError>(e),
            },
    {
        let header = read_header(&data)?;
        Ok(Demuxer { data, pos: HEADER_SIZE, header })
    }

    /// Frame width from the header.
    pub fn width(&self) -> (r: u16)
        ensures
            r == self.spec_header().w,
    {
        self.header.w
    }

    /// Frame height from the header.
    pub fn height(&self) -> (r: u16)
        ensures
            r == self.spec_header().h,
    {
        self.header.h
    }

    /// Timebase as `(numerator, denominator)`.
    pub fn timebase(&self) -> (r: (u32, u32))
        ensures
            r.0 == self.spec_header().timebase_num,
            r.1 == self.spec_header().timebase_den,
    {
        (self.header.timebase_num, self.header.timebase_den)
    }

    /// Declared frame count from the header.
    pub fn frame_count(&self) -> (r: u32)
        ensures
            r == self.spec_header().frame_count,
    {
        self.header.frame_count
    }

    /// Reads the packet record at the current position.
    ///
    /// On success the position advances by exactly `12 + length` bytes and
    /// the payload holds exactly `length` bytes. At the end of the buffer the
    /// result is `EndOfStream`; a record cut short leaves the position where
    /// it was and reports `Truncated`.
    pub fn read_packet(&mut self) -> (r: Result<Packet, ReadError>)
        requires
            old(self).wf(),
        ensures
            final(self).wf(),
            final(self).bytes() == old(self).bytes(),
            final(self).spec_header() == old(self).spec_header(),
            old(self).position() == old(self).bytes().len() ==> {
                &&& r matches Err(ReadError::EndOfStream)
                &&& final(self).position() == old(self).position()
            },
            old(self).position() < old(self).bytes().len()
                && old(self).position() + 12 > old(self).bytes().len() ==> {
                &&& r matches Err(ReadError::Truncated)
                &&& final(self).position() == old(self).position()
            },
            old(self).position() + 12 <= old(self).bytes().len() ==> {
                let len = le32_at(old(self).bytes(), old(self).position());
                if old(self).position() + 12 + len <= old(self).bytes().len() {
                    &&& r matches Ok(pk)
                    &&& pk.pts == le64_at(old(self).bytes(), old(self).position() + 4)
                    &&& pk.data@ == old(self).bytes().subrange(
                        old(self).position() + 12,
                        old(self).position() + 12 + len,
                    )
                    &&& final(self).position() == old(self).position() + 12 + len
                } else {
                    &&& r matches Err(ReadError::Truncated)
                    &&& final(self).position() == old(self).position()
                }
            },
    {
        let remaining = self.data.len() - self.pos;
        if remaining == 0 {
            return Err(ReadError::EndOfStream);
        }
        if remaining < 12 {
            return Err(ReadError::Truncated);
        }
        let len = read_u32_le(&self.data, self.pos) as usize;
        let pts = read_u64_le(&self.data, self.pos + 4);
        if remaining - 12 < len {
            return Err(ReadError::Truncated);
        }
        let payload = slice_to_vec(slice_subrange(
            self.data.as_slice(),
            self.pos + 12,
            self.pos + 12 + len,
        ));
        self.pos = self.pos + 12 + len;
        Ok(Packet { data: payload, pts })
    }

    /// Rewinds to just after the header, so the next read yields the first
    /// packet again.
    pub fn reset(&mut self)
        requires
            old(self).wf(),
        ensures
            final(self).wf(),
            final(self).bytes() == old(self).bytes(),
            final(self).spec_header() == old(self).spec_header(),
            final(self).position() == HEADER_SIZE,
    {
        self.pos = HEADER_SIZE;
    }
}

} // verus!
