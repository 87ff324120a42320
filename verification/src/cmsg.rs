//! Socket control messages: byte-level encoding and decoding.
//!
//! A control message is a header (length, level, type) followed by its
//! type-specific data and zero padding up to the platform alignment.  The
//! encoded layout used here matches the 64-bit kernel layout on
//! little-endian targets: an 8-byte length, a 4-byte level and a 4-byte
//! type, each little-endian, then the data, then padding to a multiple of
//! eight bytes.
//!
//! Decoding is total: malformed header lengths never panic, they only
//! yield control messages whose data may be truncated or empty.

use vstd::prelude::*;

use vstd::bytes::spec_u32_from_le_bytes;
use vstd::bytes::spec_u32_to_le_bytes;
use vstd::bytes::spec_u64_from_le_bytes;
use vstd::bytes::spec_u64_to_le_bytes;
use vstd::bytes::lemma_auto_spec_u32_to_from_le_bytes;
use vstd::bytes::lemma_auto_spec_u64_to_from_le_bytes;
use vstd::bytes::u32_from_le_bytes;
use vstd::bytes::u32_to_le_bytes;
use vstd::bytes::u64_from_le_bytes;
use vstd::bytes::u64_to_le_bytes;
use vstd::slice::slice_subrange;
use vstd::slice::slice_to_vec;

verus! {

/// The encoded size of a control-message header.
pub const CMSGHDR_SIZE: usize = 16;

/// The control-message alignment: data is padded to a multiple of eight
/// bytes.
pub const CMSG_ALIGNMENT: usize = 8;

/// `n` rounded up to the alignment.
pub open spec fn spec_cmsg_align(n: int) -> int {
    ((n + 7) / 8) * 8
}

/// The encoded length of a control message whose data has the given
/// length: the header plus the data, without trailing padding.
pub open spec fn spec_cmsg_len(data_len: int) -> int {
    16 + data_len
}

/// The encoded space of a control message whose data has the given
/// length: the header plus the data plus trailing padding.
pub open spec fn spec_cmsg_space(data_len: int) -> int {
    16 + spec_cmsg_align(data_len)
}

/// Alignment rounds up by less than one alignment unit and yields a
/// multiple of it.
pub proof fn lemma_cmsg_align_bounds(n: int)
    requires
        n >= 0,
    ensures
        n <= spec_cmsg_align(n) < n + 8,
        spec_cmsg_align(n) % 8 == 0,
{
    assert(n <= ((n + 7) / 8) * 8 < n + 8 && (((n + 7) / 8) * 8) % 8 == 0) by (nonlinear_arith);
}

/// `n` rounded up to the alignment.
#[allow(nonstandard_style)]
pub fn CMSG_ALIGN(n: usize) -> (r: usize)
    requires
        n + 7 <= usize::MAX,
    ensures
        r == spec_cmsg_align(n as int),
{
    ((n + 7) / 8) * 8
}

/// The encoded length of a control message with `len` bytes of data.
#[allow(nonstandard_style)]
pub fn CMSG_LEN(len: usize) -> (r: usize)
    requires
        len + 16 <= usize::MAX,
    ensures
        r == spec_cmsg_len(len as int),
{
    16 + len
}

/// The encoded space of a control message with `len` bytes of data.
#[allow(nonstandard_style)]
pub fn CMSG_SPACE(len: usize) -> (r: usize)
    requires
        len + 23 <= usize::MAX,
    ensures
        r == spec_cmsg_space(len as int),
{
    proof {
        lemma_cmsg_align_bounds(len as int);
    }
    16 + CMSG_ALIGN(len)
}

/// The unsigned 32-bit image of a signed value, as two's complement.
pub open spec fn spec_i32_to_u32(x: i32) -> u32 {
    if x >= 0 {
        x as u32
    } else {
        (x + 0x1_0000_0000) as u32
    }
}

/// The signed value whose two's complement image a 32-bit word is.
pub open spec fn spec_u32_to_i32(x: u32) -> i32 {
    if x <= 0x7fff_ffff {
        x as i32
    } else {
        (x - 0x1_0000_0000) as i32
    }
}

/// The two conversions invert each other.
pub proof fn lemma_i32_u32_round_trip(x: i32, y: u32)
    ensures
        spec_u32_to_i32(spec_i32_to_u32(x)) == x,
        spec_i32_to_u32(spec_u32_to_i32(y)) == y,
{
}

/// The unsigned 32-bit image of a signed value.
pub fn i32_to_u32(x: i32) -> (r: u32)
    ensures
        r == spec_i32_to_u32(x),
{
    if x >= 0 {
        x as u32
    } else {
        ((x as i64) + 0x1_0000_0000) as u32
    }
}

/// The signed value whose two's complement image a 32-bit word is.
pub fn u32_to_i32(x: u32) -> (r: i32)
    ensures
        r == spec_u32_to_i32(x),
{
    if x <= 0x7fff_ffff {
        x as i32
    } else {
        ((x as i64) - 0x1_0000_0000) as i32
    }
}

/// The mathematical content of one control message: header fields plus
/// data bytes.
pub struct CmsgModel {
    /// The header's length field; exceeds `16 + data.len()` when the
    /// message was truncated.
    pub cmsg_len: usize,
    /// The originating protocol.
    pub cmsg_level: i32,
    /// The protocol-specific type.
    pub cmsg_type: i32,
    /// The type-specific data.
    pub data: Seq<u8>,
}

/// The encoded bytes of one control message: header, data, zero padding.
pub open spec fn spec_encode_cmsg(m: CmsgModel) -> Seq<u8> {
    spec_u64_to_le_bytes(m.cmsg_len as u64) + spec_u32_to_le_bytes(spec_i32_to_u32(m.cmsg_level))
        + spec_u32_to_le_bytes(spec_i32_to_u32(m.cmsg_type)) + m.data + Seq::new(
        (spec_cmsg_align(m.data.len() as int) - m.data.len()) as nat,
        |i: int| 0u8,
    )
}

/// A socket control message with borrowed data.
///
/// Semantically a POSIX control-message header plus its data; the
/// in-memory representation here is independent of the encoded layout.
#[derive(Clone, Copy, Debug)]
pub struct ControlMessage<'a> {
    cmsg_len: usize,
    cmsg_level: i32,
    cmsg_type: i32,
    data: &'a [u8],
}

impl<'a> View for ControlMessage<'a> {
    type V = CmsgModel;

    closed spec fn view(&self) -> CmsgModel {
        CmsgModel {
            cmsg_len: self.cmsg_len,
            cmsg_level: self.cmsg_level,
            cmsg_type: self.cmsg_type,
            data: self.data@,
        }
    }
}

impl<'a> ControlMessage<'a> {
    /// Creates a control message with the given level, type and data; the
    /// length field is the encoded length of the data.
    ///
    /// The semantics of level and type are OS-specific: the level is a
    /// general category of socket and the type identifies a data layout.
    pub fn new(cmsg_level: i32, cmsg_type: i32, data: &'a [u8]) -> (r: ControlMessage<'a>)
        requires
            data@.len() + 23 <= usize::MAX,
        ensures
            r@.cmsg_len == spec_cmsg_len(data@.len() as int),
            r@.cmsg_level == cmsg_level,
            r@.cmsg_type == cmsg_type,
            r@.data == data@,
    {
        let cmsg_len = CMSG_LEN(data.len());
        ControlMessage { cmsg_len, cmsg_level, cmsg_type, data }
    }
}

impl ControlMessage<'_> {
    /// Returns the control message's level, an OS-specific value.
    ///
    /// POSIX describes this field as the "originating protocol".
    pub fn cmsg_level(&self) -> (r: i32)
        ensures
            r == self@.cmsg_level,
    {
        self.cmsg_level
    }

    /// Returns the control message's type, an OS-specific value.
    ///
    /// POSIX describes this field as the "protocol-specific type".
    pub fn cmsg_type(&self) -> (r: i32)
        ensures
            r == self@.cmsg_type,
    {
        self.cmsg_type
    }

    /// Returns the control message's type-specific data.
    pub fn data(&self) -> (r: &[u8])
        ensures
            r@ == self@.data,
    {
        self.data
    }

    /// Returns `true` if the control message data is truncated: its header
    /// claims more data than is present.  The kernel may truncate a
    /// control message whose data does not fit the userspace buffer.
    pub fn truncated(&self) -> (r: bool)
        requires
            self@.data.len() + 23 <= usize::MAX,
        ensures
            r == (self@.cmsg_len > spec_cmsg_len(self@.data.len() as int)),
    {
        self.cmsg_len > CMSG_LEN(self.data.len())
    }

    /// The encoded space the message occupies: header, data and padding.
    pub fn cmsg_space(&self) -> (r: usize)
        requires
            self@.data.len() + 23 <= usize::MAX,
        ensures
            r == spec_cmsg_space(self@.data.len() as int),
    {
        CMSG_SPACE(self.data.len())
    }

    /// Appends the encoded bytes of this message: header, data, and zero
    /// padding up to the alignment.  Truncated messages are preserved
    /// as-is: the header's length field is written unchanged.
    pub fn encode_into(&self, out: &mut Vec<u8>)
        requires
            self@.data.len() + 23 <= usize::MAX,
        ensures
            final(out)@ == old(out)@ + spec_encode_cmsg(self@),
            final(out)@.len() == old(out)@.len() + spec_cmsg_space(self@.data.len() as int),
    {
        proof {
            lemma_auto_spec_u64_to_from_le_bytes();
            lemma_auto_spec_u32_to_from_le_bytes();
            lemma_cmsg_align_bounds(self@.data.len() as int);
        }
        let ghost base = out@;
        let mut hdr_len = u64_to_le_bytes(self.cmsg_len as u64);
        out.append(&mut hdr_len);
        let mut level = u32_to_le_bytes(i32_to_u32(self.cmsg_level));
        out.append(&mut level);
        let mut ctype = u32_to_le_bytes(i32_to_u32(self.cmsg_type));
        out.append(&mut ctype);
        let mut data = slice_to_vec(self.data);
        out.append(&mut data);
        let pad = CMSG_ALIGN(self.data.len()) - self.data.len();
        let ghost before_pad = out@;
        let mut k: usize = 0;
        while k < pad
            invariant
                k <= pad,
                out@ == before_pad + Seq::new(k as nat, |i: int| 0u8),
            decreases pad - k,
        {
            out.push(0u8);
            proof {
                assert(out@ =~= before_pad + Seq::new((k + 1) as nat, |i: int| 0u8));
            }
            k = k + 1;
        }
        proof {
            assert(out@ =~= base + spec_encode_cmsg(self@));
        }
    }
}

/// The header-claimed length of the encoded message starting the byte
/// sequence, clamped into the machine's address range.
pub open spec fn spec_head_len(bytes: Seq<u8>) -> usize {
    let len64 = spec_u64_from_le_bytes(bytes.subrange(0, 8));
    if len64 > usize::MAX as u64 {
        usize::MAX
    } else {
        len64 as usize
    }
}

/// The first control message of an encoded byte sequence of at least
/// header size.  A header length reaching past the end of the buffer
/// takes the whole buffer (the message was truncated); one shorter than a
/// header yields empty data.
pub open spec fn spec_parse_head(bytes: Seq<u8>) -> CmsgModel {
    let hdr_len = spec_head_len(bytes);
    let level = spec_u32_to_i32(spec_u32_from_le_bytes(bytes.subrange(8, 12)));
    let ctype = spec_u32_to_i32(spec_u32_from_le_bytes(bytes.subrange(12, 16)));
    let cmsg_bytes = if hdr_len >= bytes.len() {
        bytes
    } else {
        bytes.take(hdr_len as int)
    };
    let data = if cmsg_bytes.len() <= 16 {
        Seq::empty()
    } else {
        cmsg_bytes.skip(16)
    };
    CmsgModel { cmsg_len: hdr_len, cmsg_level: level, cmsg_type: ctype, data }
}

/// The bytes remaining after the first control message and its padding;
/// empty when the message (padded) covers the rest of the buffer.
pub open spec fn spec_parse_rest(bytes: Seq<u8>) -> Seq<u8> {
    let space = spec_cmsg_space(spec_parse_head(bytes).data.len() as int);
    if space >= bytes.len() {
        Seq::empty()
    } else {
        bytes.skip(space)
    }
}

/// Every control message encoded in the byte sequence, in order.
/// Decoding stops when the remaining data is smaller than one header.
pub open spec fn spec_parse_cmsgs(bytes: Seq<u8>) -> Seq<CmsgModel>
    decreases bytes.len(),
{
    if bytes.len() < 16 {
        Seq::empty()
    } else {
        seq![spec_parse_head(bytes)] + spec_parse_cmsgs(spec_parse_rest(bytes))
    }
}

/// A borrowed byte buffer containing encoded control messages.
///
/// Nothing guarantees the contained messages are valid or even
/// well-formed; code using control messages for access control or file
/// descriptor passing should verify that the buffer came from a trusted
/// source such as a system call.
#[derive(Clone, Copy, Debug)]
pub struct ControlMessages<'a> {
    bytes: &'a [u8],
}

impl<'a> View for ControlMessages<'a> {
    type V = Seq<u8>;

    closed spec fn view(&self) -> Seq<u8> {
        self.bytes@
    }
}

impl<'a> ControlMessages<'a> {
    /// Wraps a byte buffer of encoded control messages.  The bytes are
    /// not checked for validity.
    pub fn from_bytes(bytes: &'a [u8]) -> (r: ControlMessages<'a>)
        ensures
            r@ == bytes@,
    {
        ControlMessages { bytes }
    }

    /// The underlying encoded bytes.
    pub fn as_bytes(&self) -> (r: &'a [u8])
        ensures
            r@ == self@,
    {
        self.bytes
    }

    /// Whether the underlying buffer is empty.
    pub fn is_empty(&self) -> (r: bool)
        ensures
            r == (self@.len() == 0),
    {
        self.bytes.len() == 0
    }

    /// An iterator over the control messages of the buffer.
    pub fn iter(&self) -> (r: ControlMessagesIter<'a>)
        ensures
            r@ == self@,
    {
        ControlMessagesIter { bytes: self.bytes }
    }
}

/// An iterator over the contents of a [`ControlMessages`].
///
/// Each control message starts with a header describing its own length.
/// Iteration is safe even when header lengths are incorrect, but the
/// returned control messages may then carry truncated or empty data.
/// Iteration ends when the remaining data is smaller than one header.
#[derive(Clone, Copy, Debug)]
pub struct ControlMessagesIter<'a> {
    bytes: &'a [u8],
}

impl<'a> View for ControlMessagesIter<'a> {
    type V = Seq<u8>;

    closed spec fn view(&self) -> Seq<u8> {
        self.bytes@
    }
}

impl<'a> ControlMessagesIter<'a> {
    /// The remaining bytes.  Even after `next` returns `None` this may be
    /// non-empty, when the original buffer was cut in the middle of a
    /// control-message header.
    pub fn into_bytes(self) -> (r: &'a [u8])
        ensures
            r@ == self@,
    {
        self.bytes
    }

    /// Decodes the next control message, advancing past its padding.
    ///
    /// The returned message is exactly the head of the mathematical
    /// decoding of the remaining bytes, and afterwards the iterator holds
    /// exactly the corresponding rest.
    pub fn next(&mut self) -> (r: Option<ControlMessage<'a>>)
        requires
            old(self)@.len() + 7 <= usize::MAX,
        ensures
            match r {
                None => old(self)@.len() < 16 && final(self)@ == old(self)@,
                Some(m) => {
                    &&& old(self)@.len() >= 16
                    &&& m@ == spec_parse_head(old(self)@)
                    &&& final(self)@ == spec_parse_rest(old(self)@)
                    &&& spec_parse_cmsgs(old(self)@) == seq![m@] + spec_parse_cmsgs(final(self)@)
                },
            },
    {
        if self.bytes.len() < 16 {
            return None;
        }
        let len64 = u64_from_le_bytes(slice_subrange(self.bytes, 0, 8));
        let hdr_len: usize = if len64 > usize::MAX as u64 {
            usize::MAX
        } else {
            len64 as usize
        };
        let level = u32_to_i32(u32_from_le_bytes(slice_subrange(self.bytes, 8, 12)));
        let ctype = u32_to_i32(u32_from_le_bytes(slice_subrange(self.bytes, 12, 16)));
        let cmsg_bytes: &'a [u8] = if hdr_len >= self.bytes.len() {
            self.bytes
        } else {
            slice_subrange(self.bytes, 0, hdr_len)
        };
        let data_start: usize = if cmsg_bytes.len() < 16 {
            cmsg_bytes.len()
        } else {
            16
        };
        let data: &'a [u8] = slice_subrange(cmsg_bytes, data_start, cmsg_bytes.len());
        proof {
            assert(data@ =~= spec_parse_head(self.bytes@).data);
            lemma_cmsg_align_bounds(data@.len() as int);
        }
        let al = CMSG_ALIGN(data.len());
        if al >= self.bytes.len() - 16 {
            self.bytes = slice_subrange(self.bytes, self.bytes.len(), self.bytes.len());
            proof {
                assert(self.bytes@ =~= spec_parse_rest(old(self)@));
            }
        } else {
            let here = self.bytes;
            self.bytes = slice_subrange(here, 16 + al, here.len());
            proof {
                assert(self.bytes@ =~= spec_parse_rest(old(self)@));
            }
        }
        Some(ControlMessage { cmsg_len: hdr_len, cmsg_level: level, cmsg_type: ctype, data })
    }
}

/// The concatenated encoding of a message list.
pub open spec fn spec_encode_cmsgs(ms: Seq<CmsgModel>) -> Seq<u8>
    decreases ms.len(),
{
    if ms.len() == 0 {
        Seq::empty()
    } else {
        spec_encode_cmsg(ms[0]) + spec_encode_cmsgs(ms.drop_first())
    }
}

/// Whether every message of a list is untruncated and of encodable size.
pub open spec fn spec_cmsgs_wf(ms: Seq<CmsgModel>) -> bool {
    forall|i: int|
        0 <= i < ms.len() ==> (#[trigger] ms[i]).data.len() + 23 <= usize::MAX && ms[i].cmsg_len
            == spec_cmsg_len(ms[i].data.len() as int)
}

/// **Round trip.** Decoding an encoded, untruncated control message at
/// the front of any buffer yields the message back exactly and leaves
/// exactly the trailing bytes: encoding loses nothing, whatever follows.
pub proof fn lemma_encode_parse_round_trip(m: CmsgModel, rest: Seq<u8>)
    requires
        m.data.len() + 23 <= usize::MAX,
        m.cmsg_len == spec_cmsg_len(m.data.len() as int),
    ensures
        spec_parse_cmsgs(spec_encode_cmsg(m) + rest) == seq![m] + spec_parse_cmsgs(rest),
{
    lemma_auto_spec_u64_to_from_le_bytes();
    lemma_auto_spec_u32_to_from_le_bytes();
    let d = m.data.len() as int;
    lemma_cmsg_align_bounds(d);
    let enc = spec_encode_cmsg(m);
    let bytes = enc + rest;
    assert(enc.len() == spec_cmsg_space(d));
    assert(bytes.subrange(0, 8) =~= spec_u64_to_le_bytes(m.cmsg_len as u64));
    assert(bytes.subrange(8, 12) =~= spec_u32_to_le_bytes(spec_i32_to_u32(m.cmsg_level)));
    assert(bytes.subrange(12, 16) =~= spec_u32_to_le_bytes(spec_i32_to_u32(m.cmsg_type)));
    let head = spec_parse_head(bytes);
    assert(spec_head_len(bytes) == m.cmsg_len);
    lemma_i32_u32_round_trip(m.cmsg_level, 0);
    lemma_i32_u32_round_trip(m.cmsg_type, 0);
    assert(head.cmsg_level == m.cmsg_level);
    assert(head.cmsg_type == m.cmsg_type);
    let hdr_len = m.cmsg_len as int;
    if hdr_len >= bytes.len() {
        // Only possible when there is no padding and no trailing data.
        assert(bytes.len() == spec_cmsg_space(d) + rest.len());
        assert(hdr_len == 16 + d);
        assert(rest.len() == 0 && spec_cmsg_align(d) == d);
        assert(head.data =~= m.data);
    } else {
        assert(bytes.take(hdr_len) =~= enc.subrange(0, 16) + m.data);
        assert(bytes.take(hdr_len).skip(16) =~= m.data);
        assert(head.data =~= m.data);
    }
    assert(head == m);
    let space = spec_cmsg_space(head.data.len() as int);
    assert(space == enc.len());
    if space >= bytes.len() {
        assert(rest.len() == 0);
        assert(spec_parse_rest(bytes) =~= rest);
    } else {
        assert(bytes.skip(space) =~= rest);
    }
    assert(spec_parse_cmsgs(bytes) == seq![head] + spec_parse_cmsgs(spec_parse_rest(bytes)));
    assert(seq![head] + spec_parse_cmsgs(spec_parse_rest(bytes)) =~= seq![m] + spec_parse_cmsgs(
        rest,
    ));
}

/// **Round trip, whole buffers.** A buffer built by encoding any list of
/// untruncated control messages decodes back to exactly that list:
/// encoding and decoding are mutually inverse on well-formed messages.
pub proof fn lemma_encode_parse_identity(ms: Seq<CmsgModel>)
    requires
        spec_cmsgs_wf(ms),
    ensures
        spec_parse_cmsgs(spec_encode_cmsgs(ms)) == ms,
    decreases ms.len(),
{
    if ms.len() == 0 {
        assert(spec_encode_cmsgs(ms).len() == 0);
    } else {
        assert(spec_cmsgs_wf(ms.drop_first()));
        lemma_encode_parse_round_trip(ms[0], spec_encode_cmsgs(ms.drop_first()));
        lemma_encode_parse_identity(ms.drop_first());
        assert(seq![ms[0]] + ms.drop_first() =~= ms);
    }
}

} // verus!
