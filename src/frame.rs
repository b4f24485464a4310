use vstd::prelude::*;
use crate::error::ProxyError;

verus! {

/// Largest value a 24-bit field can carry, plus one.
pub const U24_LIMIT: u32 = 0x0100_0000;

/// The three bytes of `v` (below 2^24), most significant first.
pub open spec fn u24_bytes(v: u32) -> Seq<u8> {
    seq![(v / 0x1_0000) as u8, ((v / 0x100) % 0x100) as u8, (v % 0x100) as u8]
}

/// The big-endian 24-bit value stored in `s` at `i`.
pub open spec fn u24_at(s: Seq<u8>, i: int) -> u32 {
    (s[i] as int * 0x1_0000 + s[i + 1] as int * 0x100 + s[i + 2] as int) as u32
}

proof fn lemma_u24_round_trip(v: u32)
    requires
        v < U24_LIMIT,
    ensures
        u24_at(u24_bytes(v), 0) == v,
{
    assert(v / 0x1_0000 < 0x100);
    assert((v / 0x1_0000) * 0x1_0000 + ((v / 0x100) % 0x100) * 0x100 + v % 0x100 == v)
        by (nonlinear_arith)
        requires v < 0x0100_0000;
}

proof fn lemma_u24_bytes_of_value(s: Seq<u8>, i: int)
    requires
        0 <= i,
        i + 3 <= s.len(),
    ensures
        u24_at(s, i) < U24_LIMIT,
        u24_bytes(u24_at(s, i)) == s.subrange(i, i + 3),
{
    let (a, b, c) = (s[i] as int, s[i + 1] as int, s[i + 2] as int);
    let v = a * 0x1_0000 + b * 0x100 + c;
    assert(v / 0x1_0000 == a && (v / 0x100) % 0x100 == b && v % 0x100 == c)
        by (nonlinear_arith)
        requires
            v == a * 0x1_0000 + b * 0x100 + c,
            0 <= a < 0x100,
            0 <= b < 0x100,
            0 <= c < 0x100,
    ;
    assert(u24_bytes(u24_at(s, i)) =~= s.subrange(i, i + 3));
}

/// Appends the three big-endian bytes of `v`.
fn put_u24(buffer: &mut Vec<u8>, v: u32) -> (r: usize)
    requires
        v < U24_LIMIT,
    ensures
        final(buffer)@ == old(buffer)@ + u24_bytes(v),
        r == 3,
{
    buffer.push((v / 0x1_0000) as u8);
    buffer.push(((v / 0x100) % 0x100) as u8);
    buffer.push((v % 0x100) as u8);
    assert(final(buffer)@ =~= old(buffer)@ + u24_bytes(v));
    3
}

/// Reads the big-endian 24-bit value at `i`.
fn get_u24(buffer: &[u8], i: usize) -> (r: u32)
    requires
        i + 3 <= buffer@.len(),
    ensures
        r == u24_at(buffer@, i as int),
{
    (buffer[i] as u32) * 0x1_0000 + (buffer[i + 1] as u32) * 0x100 + buffer[i + 2] as u32
}

/// What a frame's body holds, as named by the header's kind byte.
#[derive(Debug, Clone, Copy, PartialEq, Eq, Structural)]
pub enum ProtKind {
    Data,
    Create,
    Close,
    /// A kind byte with no decoder; the byte is kept so it encodes back unchanged.
    Unregistered(u8),
}

impl ProtKind {
    /// The kind that a byte on the wire stands for.
    pub open spec fn spec_new(b: u8) -> ProtKind {
        if b == 0 {
            ProtKind::Data
        } else if b == 1 {
            ProtKind::Create
        } else if b == 2 {
            ProtKind::Close
        } else {
            ProtKind::Unregistered(b)
        }
    }

    /// The byte a kind is written as.
    pub open spec fn spec_encode(self) -> u8 {
        match self {
            ProtKind::Data => 0,
            ProtKind::Create => 1,
            ProtKind::Close => 2,
            ProtKind::Unregistered(b) => b,
        }
    }

    /// An unregistered kind never carries a byte of a registered one.
    pub open spec fn wf(self) -> bool {
        match self {
            ProtKind::Unregistered(b) => b > 2,
            _ => true,
        }
    }

    pub fn new(b: u8) -> (r: ProtKind)
        ensures
            r == Self::spec_new(b),
            r.wf(),
    {
        if b == 0 {
            ProtKind::Data
        } else if b == 1 {
            ProtKind::Create
        } else if b == 2 {
            ProtKind::Close
        } else {
            ProtKind::Unregistered(b)
        }
    }

    pub fn encode(&self) -> (r: u8)
        ensures
            r == self.spec_encode(),
    {
        match self {
            ProtKind::Data => 0,
            ProtKind::Create => 1,
            ProtKind::Close => 2,
            ProtKind::Unregistered(b) => *b,
        }
    }
}

/// Variant-specific option bits of a frame; opaque to the header.
#[derive(Debug, Clone, Copy, PartialEq, Eq, Structural)]
pub struct ProtFlag {
    pub bits: u8,
}

impl ProtFlag {
    pub fn new(bits: u8) -> (r: ProtFlag)
        ensures
            r.bits == bits,
    {
        ProtFlag { bits }
    }

    pub fn empty() -> (r: ProtFlag)
        ensures
            r.bits == 0,
    {
        ProtFlag { bits: 0 }
    }

    pub fn bits(&self) -> (r: u8)
        ensures
            r == self.bits,
    {
        self.bits
    }
}

/// The fixed eight-byte header in front of every frame.
#[derive(Debug, Clone, Copy, PartialEq, Eq, Structural)]
pub struct ProtFrameHeader {
    pub length: u32,
    pub kind: ProtKind,
    pub flag: ProtFlag,
    pub sock_map: u32,
}

/// Number of bytes a frame header occupies on the wire.
pub const FRAME_HEADER_BYTES: usize = 8;

impl ProtFrameHeader {
    /// Both 24-bit fields fit their width and the kind is canonical.
    pub open spec fn wf(self) -> bool {
        self.length < U24_LIMIT && self.sock_map < U24_LIMIT && self.kind.wf()
    }

    /// The eight bytes this header is written as.
    pub open spec fn spec_bytes(self) -> Seq<u8> {
        u24_bytes(self.length) + seq![self.kind.spec_encode(), self.flag.bits] + u24_bytes(
            self.sock_map,
        )
    }

    /// The header that the five bytes after the length field, at `i`, describe.
    pub open spec fn spec_from_rest(s: Seq<u8>, i: int, length: u32) -> ProtFrameHeader {
        ProtFrameHeader {
            length,
            kind: ProtKind::spec_new(s[i]),
            flag: ProtFlag { bits: s[i + 1] },
            sock_map: u24_at(s, i + 2),
        }
    }

    /// The header that the first eight bytes of `s` describe.
    pub open spec fn spec_decode(s: Seq<u8>) -> ProtFrameHeader {
        Self::spec_from_rest(s, 3, u24_at(s, 0))
    }

    pub fn new(kind: ProtKind, flag: ProtFlag, sock_map: u32) -> (r: ProtFrameHeader)
        ensures
            r == (ProtFrameHeader { length: 0, kind, flag, sock_map }),
    {
        ProtFrameHeader { length: 0, kind, flag, sock_map }
    }

    pub fn sock_map(&self) -> (r: u32)
        ensures
            r == self.sock_map,
    {
        self.sock_map
    }

    pub fn flag(&self) -> (r: ProtFlag)
        ensures
            r == self.flag,
    {
        self.flag
    }

    pub fn kind(&self) -> (r: ProtKind)
        ensures
            r == self.kind,
    {
        self.kind
    }

    /// Decodes a header from the start of `buffer`; `TooShort` below eight bytes.
    pub fn parse(buffer: &[u8]) -> (r: Result<ProtFrameHeader, ProxyError>)
        ensures
            buffer@.len() < FRAME_HEADER_BYTES ==> r == Err::<ProtFrameHeader, ProxyError>(
                ProxyError::TooShort,
            ),
            buffer@.len() >= FRAME_HEADER_BYTES ==> r == Ok::<ProtFrameHeader, ProxyError>(
                Self::spec_decode(buffer@),
            ),
    {
        if buffer.len() < FRAME_HEADER_BYTES {
            return Err(ProxyError::TooShort);
        }
        let length = get_u24(buffer, 0);
        Ok(Self::read_rest(buffer, 3, length))
    }

    fn read_rest(buffer: &[u8], i: usize, length: u32) -> (r: ProtFrameHeader)
        requires
            i + 5 <= buffer@.len(),
        ensures
            r == Self::spec_from_rest(buffer@, i as int, length),
    {
        let kind = buffer[i];
        let flag = buffer[i + 1];
        let sock_map = get_u24(buffer, i + 2);
        ProtFrameHeader { length, kind: ProtKind::new(kind), flag: ProtFlag::new(flag), sock_map }
    }

    /// Decodes the part of a header after the length field, whose value was
    /// read separately; `TooShort` below five bytes.
    pub fn parse_by_len(buffer: &[u8], length: u32) -> (r: Result<ProtFrameHeader, ProxyError>)
        ensures
            buffer@.len() < FRAME_HEADER_BYTES - 3 ==> r == Err::<ProtFrameHeader, ProxyError>(
                ProxyError::TooShort,
            ),
            buffer@.len() >= FRAME_HEADER_BYTES - 3 ==> r == Ok::<ProtFrameHeader, ProxyError>(
                Self::spec_from_rest(buffer@, 0, length),
            ),
    {
        if buffer.len() < FRAME_HEADER_BYTES - 3 {
            return Err(ProxyError::TooShort);
        }
        Ok(Self::read_rest(buffer, 0, length))
    }

    /// Appends the eight header bytes and returns how many were written.
    pub fn encode(&self, buffer: &mut Vec<u8>) -> (r: usize)
        requires
            self.wf(),
        ensures
            final(buffer)@ == old(buffer)@ + self.spec_bytes(),
            r == FRAME_HEADER_BYTES,
    {
        let mut size: usize = 0;
        size += put_u24(buffer, self.length);
        buffer.push(self.kind.encode());
        size += 1;
        buffer.push(self.flag.bits());
        size += 1;
        size += put_u24(buffer, self.sock_map);
        assert(final(buffer)@ =~= old(buffer)@ + self.spec_bytes());
        size
    }
}

/// Encoding a well-formed header and decoding the bytes gives the header back,
/// and eight bytes that are decoded then encoded come back unchanged.
pub proof fn lemma_header_round_trip(h: ProtFrameHeader, s: Seq<u8>)
    requires
        h.wf(),
        s.len() == FRAME_HEADER_BYTES,
    ensures
        h.spec_bytes().len() == FRAME_HEADER_BYTES,
        ProtFrameHeader::spec_decode(h.spec_bytes()) == h,
        ProtFrameHeader::spec_decode(s).wf(),
        ProtFrameHeader::spec_decode(s).spec_bytes() == s,
{
    let b = h.spec_bytes();
    lemma_u24_round_trip(h.length);
    lemma_u24_round_trip(h.sock_map);
    assert(b.subrange(0, 3) =~= u24_bytes(h.length));
    assert(b.subrange(5, 8) =~= u24_bytes(h.sock_map));
    assert(u24_at(b, 0) == u24_at(u24_bytes(h.length), 0));
    assert(u24_at(b, 5) == u24_at(u24_bytes(h.sock_map), 0));
    assert(ProtKind::spec_new(h.kind.spec_encode()) == h.kind);
    lemma_u24_bytes_of_value(s, 0);
    lemma_u24_bytes_of_value(s, 5);
    let d = ProtFrameHeader::spec_decode(s);
    assert(d.kind.spec_encode() == s[3]);
    assert(d.spec_bytes() =~= s);
}

/// Body of a frame that opens a virtual stream; it carries no payload.
#[derive(Debug, Clone, Copy, PartialEq, Eq, Structural)]
pub struct ProtCreate {
    pub sock_map: u32,
}

/// Body of a frame that ends a virtual stream; it carries no payload.
#[derive(Debug, Clone, Copy, PartialEq, Eq, Structural)]
pub struct ProtClose {
    pub sock_map: u32,
}

/// Body of a frame that carries a chunk of a virtual stream's bytes.
#[derive(Debug, Clone)]
pub struct ProtData {
    pub sock_map: u32,
    pub data: Vec<u8>,
}

impl ProtCreate {
    pub fn new(sock_map: u32) -> (r: ProtCreate)
        ensures
            r.sock_map == sock_map,
    {
        ProtCreate { sock_map }
    }

    pub fn sock_map(&self) -> (r: u32)
        ensures
            r == self.sock_map,
    {
        self.sock_map
    }
}

impl ProtClose {
    pub fn new(sock_map: u32) -> (r: ProtClose)
        ensures
            r.sock_map == sock_map,
    {
        ProtClose { sock_map }
    }

    pub fn sock_map(&self) -> (r: u32)
        ensures
            r == self.sock_map,
    {
        self.sock_map
    }
}

impl ProtData {
    pub fn new(sock_map: u32, data: Vec<u8>) -> (r: ProtData)
        ensures
            r.sock_map == sock_map,
            r.data@ == data@,
    {
        ProtData { sock_map, data }
    }

    pub fn sock_map(&self) -> (r: u32)
        ensures
            r == self.sock_map,
    {
        self.sock_map
    }
}

/// One unit of the multiplexing protocol, as seen by the logic that routes it.
pub enum FrameModel {
    Create(u32),
    Close(u32),
    Data(u32, Seq<u8>),
}

/// A decoded frame: the header's kind picks the variant.
#[derive(Debug, Clone)]
pub enum ProtFrame {
    Create(ProtCreate),
    Close(ProtClose),
    Data(ProtData),
}

impl View for ProtFrame {
    type V = FrameModel;

    open spec fn view(&self) -> FrameModel {
        match self {
            ProtFrame::Create(c) => FrameModel::Create(c.sock_map),
            ProtFrame::Close(c) => FrameModel::Close(c.sock_map),
            ProtFrame::Data(d) => FrameModel::Data(d.sock_map, d.data@),
        }
    }
}

impl FrameModel {
    pub open spec fn handle(self) -> u32 {
        match self {
            FrameModel::Create(h) => h,
            FrameModel::Close(h) => h,
            FrameModel::Data(h, _) => h,
        }
    }

    /// The handle and the payload length fit their 24-bit fields.
    pub open spec fn wf(self) -> bool {
        self.handle() < U24_LIMIT && match self {
            FrameModel::Data(_, p) => p.len() < U24_LIMIT,
            _ => true,
        }
    }

    /// The header a frame is sent with.
    pub open spec fn header(self) -> ProtFrameHeader {
        match self {
            FrameModel::Create(h) => ProtFrameHeader {
                length: 0,
                kind: ProtKind::Create,
                flag: ProtFlag { bits: 0 },
                sock_map: h,
            },
            FrameModel::Close(h) => ProtFrameHeader {
                length: 0,
                kind: ProtKind::Close,
                flag: ProtFlag { bits: 0 },
                sock_map: h,
            },
            FrameModel::Data(h, p) => ProtFrameHeader {
                length: p.len() as u32,
                kind: ProtKind::Data,
                flag: ProtFlag { bits: 0 },
                sock_map: h,
            },
        }
    }

    /// The body that follows the header.
    pub open spec fn body(self) -> Seq<u8> {
        match self {
            FrameModel::Data(_, p) => p,
            _ => Seq::empty(),
        }
    }

    /// The whole of a frame on the wire.
    pub open spec fn bytes(self) -> Seq<u8> {
        self.header().spec_bytes() + self.body()
    }
}

/// The frame that a header and the bytes after it decode to.
pub open spec fn spec_parse_frame(h: ProtFrameHeader, body: Seq<u8>) -> Result<FrameModel, ProxyError> {
    match h.kind {
        ProtKind::Unregistered(_) => Err(ProxyError::UnregisteredKind),
        _ => if body.len() < h.length {
            Err(ProxyError::TooShort)
        } else {
            match h.kind {
                ProtKind::Create => Ok(FrameModel::Create(h.sock_map)),
                ProtKind::Close => Ok(FrameModel::Close(h.sock_map)),
                _ => Ok(FrameModel::Data(h.sock_map, body.subrange(0, h.length as int))),
            }
        },
    }
}

impl ProtFrame {
    /// Decodes the body that follows `header`. At most `header.length` bytes of
    /// `buf` are read; fewer than that gives `TooShort`, an unregistered kind
    /// `UnregisteredKind`.
    pub fn parse(header: ProtFrameHeader, buf: &[u8]) -> (r: Result<ProtFrame, ProxyError>)
        ensures
            match (r, spec_parse_frame(header, buf@)) {
                (Ok(f), Ok(m)) => f@ == m,
                (Err(e), Err(e2)) => e == e2,
                _ => false,
            },
    {
        match header.kind {
            ProtKind::Unregistered(_) => {
                return Err(ProxyError::UnregisteredKind);
            },
            _ => {},
        }
        if buf.len() < header.length as usize {
            return Err(ProxyError::TooShort);
        }
        match header.kind {
            ProtKind::Create => Ok(ProtFrame::Create(ProtCreate::new(header.sock_map))),
            ProtKind::Close => Ok(ProtFrame::Close(ProtClose::new(header.sock_map))),
            _ => {
                let len = header.length as usize;
                let mut data: Vec<u8> = Vec::with_capacity(len);
                let mut i: usize = 0;
                while i < len
                    invariant
                        i <= len <= buf@.len(),
                        len == header.length,
                        data@ == buf@.subrange(0, i as int),
                    decreases len - i,
                {
                    data.push(buf[i]);
                    i += 1;
                    assert(data@ =~= buf@.subrange(0, i as int));
                }
                Ok(ProtFrame::Data(ProtData::new(header.sock_map, data)))
            },
        }
    }

    /// Appends the frame, header then body, and returns how many bytes were written.
    pub fn encode(self, buf: &mut Vec<u8>) -> (r: usize)
        requires
            self@.wf(),
        ensures
            final(buf)@ == old(buf)@ + self@.bytes(),
            r == self@.bytes().len(),
    {
        let header = self.header();
        let size = header.encode(buf);
        match self {
            ProtFrame::Data(d) => {
                let mut data = d.data;
                let n = data.len();
                buf.append(&mut data);
                size + n
            },
            _ => {
                assert(self@.body() =~= Seq::<u8>::empty());
                assert(final(buf)@ =~= old(buf)@ + self@.bytes());
                size
            },
        }
    }

    /// The header this frame is sent with.
    pub fn header(&self) -> (r: ProtFrameHeader)
        ensures
            r == self@.header(),
    {
        match self {
            ProtFrame::Create(c) => ProtFrameHeader::new(ProtKind::Create, ProtFlag::empty(), c.sock_map),
            ProtFrame::Close(c) => ProtFrameHeader::new(ProtKind::Close, ProtFlag::empty(), c.sock_map),
            ProtFrame::Data(d) => {
                let mut h = ProtFrameHeader::new(ProtKind::Data, ProtFlag::empty(), d.sock_map);
                h.length = d.data.len() as u32;
                h
            },
        }
    }

    pub fn new_create(sock_map: u32) -> (r: Self)
        ensures
            r@ == FrameModel::Create(sock_map),
    {
        ProtFrame::Create(ProtCreate::new(sock_map))
    }

    pub fn new_close(sock_map: u32) -> (r: Self)
        ensures
            r@ == FrameModel::Close(sock_map),
    {
        ProtFrame::Close(ProtClose::new(sock_map))
    }

    pub fn new_data(sock_map: u32, data: Vec<u8>) -> (r: Self)
        ensures
            r@ == FrameModel::Data(sock_map, data@),
    {
        ProtFrame::Data(ProtData::new(sock_map, data))
    }

    pub fn is_create(&self) -> (r: bool)
        ensures
            r == self@ is Create,
    {
        match self {
            ProtFrame::Create(_) => true,
            _ => false,
        }
    }

    pub fn is_close(&self) -> (r: bool)
        ensures
            r == self@ is Close,
    {
        match self {
            ProtFrame::Close(_) => true,
            _ => false,
        }
    }

    pub fn is_data(&self) -> (r: bool)
        ensures
            r == self@ is Data,
    {
        match self {
            ProtFrame::Data(_) => true,
            _ => false,
        }
    }

    pub fn sock_map(&self) -> (r: u32)
        ensures
            r == self@.handle(),
    {
        match self {
            ProtFrame::Data(s) => s.sock_map(),
            ProtFrame::Create(s) => s.sock_map(),
            ProtFrame::Close(s) => s.sock_map(),
        }
    }
}

/// A well-formed frame that is encoded, then decoded header first and body
/// after, comes back as the same frame.
pub proof fn lemma_frame_round_trip(f: FrameModel)
    requires
        f.wf(),
    ensures
        ProtFrameHeader::spec_decode(f.bytes()) == f.header(),
        spec_parse_frame(f.header(), f.bytes().subrange(FRAME_HEADER_BYTES as int, f.bytes().len() as int))
            == Ok::<FrameModel, ProxyError>(f),
{
    let h = f.header();
    assert(h.wf());
    lemma_header_round_trip(h, h.spec_bytes());
    let b = f.bytes();
    assert(b.subrange(0, 8) =~= h.spec_bytes());
    assert(ProtFrameHeader::spec_decode(b) == ProtFrameHeader::spec_decode(h.spec_bytes())) by {
        assert(forall|i: int| 0 <= i < 8 ==> b[i] == h.spec_bytes()[i]);
    }
    assert(b.subrange(8, b.len() as int) =~= f.body());
    assert(f.body().subrange(0, h.length as int) =~= f.body());
}

} // verus!
