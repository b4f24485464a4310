use vstd::prelude::*;
use std::collections::HashMap;
use crate::error::ProxyError;
use crate::frame::{
    FrameModel, ProtFrame, ProtFrameHeader, spec_parse_frame, FRAME_HEADER_BYTES,
};

verus! {

broadcast use vstd::std_specs::hash::group_hash_axioms;

/// What the bytes at the front of a received stream decode to: the frame and
/// the number of bytes it spans.
pub open spec fn spec_decode_frame(s: Seq<u8>) -> Result<(FrameModel, int), ProxyError> {
    if s.len() < FRAME_HEADER_BYTES {
        Err(ProxyError::TooShort)
    } else {
        let h = ProtFrameHeader::spec_decode(s);
        match spec_parse_frame(h, s.subrange(FRAME_HEADER_BYTES as int, s.len() as int)) {
            Ok(f) => Ok((f, FRAME_HEADER_BYTES + h.length)),
            Err(e) => Err(e),
        }
    }
}

/// Decodes one whole frame from the front of `buf`. Frame boundaries need not
/// line up with reads: `TooShort` means the header or the body is not all there
/// yet, and nothing is taken.
pub fn decode_frame(buf: &[u8]) -> (r: Result<(ProtFrame, usize), ProxyError>)
    ensures
        match (r, spec_decode_frame(buf@)) {
            (Ok((f, n)), Ok((m, k))) => f@ == m && n == k,
            (Err(e), Err(e2)) => e == e2,
            _ => false,
        },
{
    let header = match ProtFrameHeader::parse(buf) {
        Ok(h) => h,
        Err(e) => {
            return Err(e);
        },
    };
    let body = vstd::slice::slice_subrange(buf, FRAME_HEADER_BYTES, buf.len());
    match ProtFrame::parse(header, body) {
        Ok(f) => Ok((f, FRAME_HEADER_BYTES + header.length as usize)),
        Err(e) => Err(e),
    }
}

/// The open virtual streams after one received frame: a `Create` opens an
/// unused handle, a `Data` appends to an open one, a `Close` ends an open one.
/// Anything else breaks the protocol.
pub open spec fn spec_step(m: Map<u32, Seq<u8>>, f: FrameModel) -> Result<Map<u32, Seq<u8>>, ProxyError> {
    match f {
        FrameModel::Create(h) => if m.contains_key(h) {
            Err(ProxyError::ProtocolViolation)
        } else {
            Ok(m.insert(h, Seq::empty()))
        },
        FrameModel::Data(h, p) => if m.contains_key(h) {
            Ok(m.insert(h, m[h] + p))
        } else {
            Err(ProxyError::ProtocolViolation)
        },
        FrameModel::Close(h) => if m.contains_key(h) {
            Ok(m.remove(h))
        } else {
            Err(ProxyError::ProtocolViolation)
        },
    }
}

/// The open streams after a sequence of frames, received in order; the first
/// violation stops it.
pub open spec fn spec_run(m: Map<u32, Seq<u8>>, frames: Seq<FrameModel>) -> Result<Map<u32, Seq<u8>>, ProxyError>
    decreases frames.len(),
{
    if frames.len() == 0 {
        Ok(m)
    } else {
        match spec_step(m, frames[0]) {
            Ok(m2) => spec_run(m2, frames.drop_first()),
            Err(e) => Err(e),
        }
    }
}

/// The open streams after routing every whole frame at the front of `s`, and
/// how many bytes those frames span; a trailing partial frame waits for more.
/// The first frame that fails to decode or to route ends it.
pub open spec fn spec_feed(m: Map<u32, Seq<u8>>, s: Seq<u8>) -> Result<(Map<u32, Seq<u8>>, int), ProxyError>
    decreases s.len(),
{
    match spec_decode_frame(s) {
        Err(e) => if e == ProxyError::TooShort {
            Ok((m, 0))
        } else {
            Err(e)
        },
        Ok((f, n)) => if 0 < n <= s.len() {
            match spec_step(m, f) {
                Err(e) => Err(e),
                Ok(m2) => match spec_feed(m2, s.subrange(n, s.len() as int)) {
                    Ok((m3, k)) => Ok((m3, n + k)),
                    Err(e) => Err(e),
                },
            }
        } else {
            Ok((m, 0))
        },
    }
}

/// The payloads of the `Data` frames for handle `h`, in the order they came.
pub open spec fn payload_for(frames: Seq<FrameModel>, h: u32) -> Seq<u8>
    decreases frames.len(),
{
    if frames.len() == 0 {
        Seq::empty()
    } else {
        let rest = payload_for(frames.drop_first(), h);
        match frames[0] {
            FrameModel::Data(g, p) => if g == h {
                p + rest
            } else {
                rest
            },
            _ => rest,
        }
    }
}

/// Multiplexing keeps streams apart: when stream `a` is open and no frame opens
/// or closes it, what it holds after the frames is what it held before followed
/// by its own payloads in send order, whatever other handles' frames came between.
pub proof fn lemma_demux_isolation(m: Map<u32, Seq<u8>>, frames: Seq<FrameModel>, a: u32)
    requires
        m.contains_key(a),
        forall|i: int| 0 <= i < frames.len() ==> (frames[i] is Data || frames[i].handle() != a),
        spec_run(m, frames) is Ok,
    ensures
        spec_run(m, frames)->Ok_0.contains_key(a),
        spec_run(m, frames)->Ok_0[a] == m[a] + payload_for(frames, a),
    decreases frames.len(),
{
    if frames.len() == 0 {
        assert(m[a] + Seq::<u8>::empty() =~= m[a]);
    } else {
        let m2 = spec_step(m, frames[0])->Ok_0;
        let rest = frames.drop_first();
        assert forall|i: int| 0 <= i < rest.len() implies (rest[i] is Data || rest[i].handle() != a) by {
            assert(rest[i] == frames[i + 1]);
        }
        assert(frames[0] is Data || frames[0].handle() != a);
        lemma_demux_isolation(m2, rest, a);
        match frames[0] {
            FrameModel::Data(g, p) => {
                if g == a {
                    assert(m2[a] + payload_for(rest, a) =~= m[a] + (p + payload_for(rest, a)));
                }
            },
            _ => {},
        }
    }
}

/// The receiving end of one physical link: the bytes delivered so far on each
/// open virtual stream, keyed by handle.
pub struct Session {
    streams: HashMap<u32, Vec<u8>>,
}

impl View for Session {
    type V = Map<u32, Seq<u8>>;

    closed spec fn view(&self) -> Map<u32, Seq<u8>> {
        self.streams@.map_values(|v: Vec<u8>| v@)
    }
}

impl Session {
    pub fn new() -> (r: Session)
        ensures
            r@ == Map::<u32, Seq<u8>>::empty(),
    {
        let r = Session { streams: HashMap::new() };
        assert(r@ =~= Map::<u32, Seq<u8>>::empty());
        r
    }

    /// Whether stream `h` is open.
    pub fn is_open(&self, h: u32) -> (r: bool)
        ensures
            r == self@.contains_key(h),
    {
        self.streams.contains_key(&h)
    }

    /// Routes one received frame to its stream. On a violation nothing changes.
    pub fn receive(&mut self, frame: ProtFrame) -> (r: Result<(), ProxyError>)
        ensures
            match spec_step(old(self)@, frame@) {
                Ok(m) => r is Ok && final(self)@ == m,
                Err(e) => r == Err::<(), ProxyError>(e) && final(self)@ == old(self)@,
            },
    {
        match frame {
            ProtFrame::Create(c) => {
                if self.streams.contains_key(&c.sock_map) {
                    return Err(ProxyError::ProtocolViolation);
                }
                self.streams.insert(c.sock_map, Vec::new());
                assert(self@ =~= old(self)@.insert(c.sock_map, Seq::empty()));
                Ok(())
            },
            ProtFrame::Data(d) => {
                let h = d.sock_map;
                match self.streams.remove(&h) {
                    Some(v) => {
                        let mut v = v;
                        let mut data = d.data;
                        v.append(&mut data);
                        self.streams.insert(h, v);
                        assert(self@ =~= old(self)@.insert(h, old(self)@[h] + d.data@));
                        Ok(())
                    },
                    None => Err(ProxyError::ProtocolViolation),
                }
            },
            ProtFrame::Close(c) => {
                match self.streams.remove(&c.sock_map) {
                    Some(_) => {
                        assert(self@ =~= old(self)@.remove(c.sock_map));
                        Ok(())
                    },
                    None => Err(ProxyError::ProtocolViolation),
                }
            },
        }
    }

    /// Decodes and routes every whole frame at the front of `buf` and returns
    /// how many bytes they span; the rest is a partial frame to be offered again
    /// with more bytes behind it. A frame that fails to decode or to route is
    /// fatal to the link, and its error is returned.
    pub fn feed(&mut self, buf: &[u8]) -> (r: Result<usize, ProxyError>)
        ensures
            match spec_feed(old(self)@, buf@) {
                Ok((m, k)) => r == Ok::<usize, ProxyError>(k as usize) && final(self)@ == m,
                Err(e) => r == Err::<usize, ProxyError>(e),
            },
    {
        let mut at: usize = 0;
        assert(buf@.subrange(0, buf@.len() as int) =~= buf@);
        loop
            invariant
                at <= buf@.len(),
                spec_feed(old(self)@, buf@) == match spec_feed(self@, buf@.subrange(at as int, buf@.len() as int)) {
                    Ok((m, k)) => Ok((m, at + k)),
                    Err(e) => Err(e),
                },
            decreases buf@.len() - at,
        {
            let rest = vstd::slice::slice_subrange(buf, at, buf.len());
            match decode_frame(rest) {
                Err(e) => {
                    if e == ProxyError::TooShort {
                        return Ok(at);
                    }
                    return Err(e);
                },
                Ok((f, n)) => {
                    if n == 0 || n > rest.len() {
                        return Ok(at);
                    }
                    match self.receive(f) {
                        Err(e) => {
                            return Err(e);
                        },
                        Ok(()) => {},
                    }
                    assert(rest@.subrange(n as int, rest@.len() as int) =~= buf@.subrange(
                        at + n,
                        buf@.len() as int,
                    ));
                    at = at + n;
                },
            }
        }
    }

    /// Hands the bytes delivered so far on stream `h` to its consumer and leaves
    /// the stream open and empty; `None` when `h` is not open.
    pub fn take(&mut self, h: u32) -> (r: Option<Vec<u8>>)
        ensures
            old(self)@.contains_key(h) ==> r is Some && r->Some_0@ == old(self)@[h]
                && final(self)@ == old(self)@.insert(h, Seq::empty()),
            !old(self)@.contains_key(h) ==> r is None && final(self)@ == old(self)@,
    {
        match self.streams.remove(&h) {
            Some(v) => {
                self.streams.insert(h, Vec::new());
                assert(self@ =~= old(self)@.insert(h, Seq::empty()));
                Some(v)
            },
            None => None,
        }
    }
}

} // verus!
