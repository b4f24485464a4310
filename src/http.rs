use vstd::prelude::*;

verus! {

/// What the HTTP request parser makes of the bytes read so far, as the
/// contracts speak of it.
pub enum SniffModel {
    Parsed { host: Option<Seq<char>>, partial: bool, connect: bool },
    Partial,
    Invalid,
}

/// What the HTTP request parser makes of the bytes read so far.
#[derive(Debug, Clone)]
pub enum HttpSniff {
    /// A request line and headers were parsed; `host` is the target
    /// (`name:port`) when one is known, `connect` whether the method is CONNECT.
    Parsed { host: Option<String>, partial: bool, connect: bool },
    /// The bytes are a prefix of a request; more are needed.
    Partial,
    /// The bytes are not HTTP.
    Invalid,
}

impl View for HttpSniff {
    type V = SniffModel;

    open spec fn view(&self) -> SniffModel {
        match self {
            HttpSniff::Parsed { host, partial, connect } => SniffModel::Parsed {
                host: match host {
                    Some(h) => Some(h@),
                    None => None,
                },
                partial: *partial,
                connect: *connect,
            },
            HttpSniff::Partial => SniffModel::Partial,
            HttpSniff::Invalid => SniffModel::Invalid,
        }
    }
}

/// What webparse's request parser reports for a byte buffer.
pub uninterp spec fn http_sniff_of(b: Seq<u8>) -> SniffModel;

/// Relies on webparse::Request::parse, with get_connect_url, is_partial and
/// method on the parsed request: the outcome depends on the bytes alone.
#[verifier::external_body]
fn sniff_http(b: &[u8]) -> (r: HttpSniff)
    ensures
        r@ == http_sniff_of(b@),
{
    let mut request = webparse::Request::new();
    match request.parse(b) {
        Ok(_) => HttpSniff::Parsed {
            host: request.get_connect_url(),
            partial: request.is_partial(),
            connect: matches!(request.method(), webparse::Method::Connect),
        },
        Err(webparse::WebError::Http(webparse::HttpError::Partial)) => HttpSniff::Partial,
        Err(_) => HttpSniff::Invalid,
    }
}

/// The bytes of a minimal response with the given status, as webparse
/// serialises it; `None` where webparse refuses to build it.
pub uninterp spec fn status_response_of(status: u16) -> Option<Seq<u8>>;

/// Relies on webparse::Response::builder, status, body and httpdata: the
/// bytes depend on the status alone.
#[verifier::external_body]
fn status_response(status: u16) -> (r: Option<Vec<u8>>)
    ensures
        match r {
            Some(v) => status_response_of(status) == Some(v@),
            None => status_response_of(status) is None,
        },
{
    match webparse::Response::builder().status(status).body(()) {
        Ok(mut res) => res.httpdata().ok(),
        Err(_) => None,
    }
}

/// The next step of the handshake on an inbound connection.
#[derive(Debug, Clone)]
pub enum SniffAction {
    /// The request is not complete yet: read more bytes.
    ReadMore,
    /// The target is known: dial `host`; `connect` tells a CONNECT tunnel from a
    /// plain proxied request.
    Dial { host: String, connect: bool },
    /// A complete request named no target: answer 503 and fail with `UnknownHost`.
    Reject,
    /// Not HTTP: hand the bytes read so far and the connection back to the caller.
    Fallback,
    /// The peer closed before the handshake completed.
    Closed,
}

/// The next step of the handshake, as the contracts speak of it.
pub enum ActionModel {
    ReadMore,
    Dial { host: Seq<char>, connect: bool },
    Reject,
    Fallback,
    Closed,
}

impl View for SniffAction {
    type V = ActionModel;

    open spec fn view(&self) -> ActionModel {
        match self {
            SniffAction::ReadMore => ActionModel::ReadMore,
            SniffAction::Dial { host, connect } => ActionModel::Dial { host: host@, connect: *connect },
            SniffAction::Reject => ActionModel::Reject,
            SniffAction::Fallback => ActionModel::Fallback,
            SniffAction::Closed => ActionModel::Closed,
        }
    }
}

/// The step that a parse outcome calls for.
pub open spec fn spec_decide(s: SniffModel) -> ActionModel {
    match s {
        SniffModel::Parsed { host, partial, connect } => match host {
            Some(h) => ActionModel::Dial { host: h, connect },
            None => if partial {
                ActionModel::ReadMore
            } else {
                ActionModel::Reject
            },
        },
        SniffModel::Partial => ActionModel::ReadMore,
        SniffModel::Invalid => ActionModel::Fallback,
    }
}

/// What the inbound side is sent when a CONNECT tunnel is established:
/// `HTTP/1.1 200 OK` and an empty header block.
pub open spec fn connect_ok_bytes() -> Seq<u8> {
    seq![
        72u8, 84, 84, 80, 47, 49, 46, 49, 32, 50, 48, 48, 32, 79, 75,
        13, 10, 13, 10,
    ]
}

/// Where the handshake hands over once the outbound leg exists.
#[derive(Debug, Clone)]
pub enum Handoff {
    /// Send these bytes to the inbound side, then relay.
    ReplyInbound(Vec<u8>),
    /// Send these bytes to the outbound side, then relay.
    ReplayOutbound(Vec<u8>),
}

/// The HTTP(S) proxy handshake on one inbound connection.
pub struct ProxyHttp {}

impl ProxyHttp {
    /// The step that a parse outcome calls for: a known target is dialled, a
    /// partial request waits for more bytes, a complete request without a target
    /// is rejected, and bytes that are not HTTP fall back.
    pub fn decide(sniff: HttpSniff) -> (r: SniffAction)
        ensures
            r@ == spec_decide(sniff@),
    {
        match sniff {
            HttpSniff::Parsed { host, partial, connect } => match host {
                Some(h) => SniffAction::Dial { host: h, connect },
                None => if partial {
                    SniffAction::ReadMore
                } else {
                    SniffAction::Reject
                },
            },
            HttpSniff::Partial => SniffAction::ReadMore,
            HttpSniff::Invalid => SniffAction::Fallback,
        }
    }

    /// The acknowledgment of an established CONNECT tunnel.
    pub fn connect_ok_response() -> (r: Vec<u8>)
        ensures
            r@ == connect_ok_bytes(),
    {
        let r: Vec<u8> = vec![
            72, 84, 84, 80, 47, 49, 46, 49, 32, 50, 48, 48, 32, 79, 75,
            13, 10, 13, 10,
        ];
        assert(r@ =~= connect_ok_bytes());
        r
    }

    /// The reply sent to the inbound side when the target is unknown or cannot
    /// be dialled: a 503 response.
    pub fn unavailable_response() -> (r: Option<Vec<u8>>)
        ensures
            match r {
                Some(v) => status_response_of(503) == Some(v@),
                None => status_response_of(503) is None,
            },
    {
        status_response(503)
    }
}

/// The bytes read so far on an inbound connection that is being classified.
/// They only grow, and a parse attempt never consumes them.
pub struct HttpSniffer {
    buffer: Vec<u8>,
}

impl View for HttpSniffer {
    type V = Seq<u8>;

    closed spec fn view(&self) -> Seq<u8> {
        self.buffer@
    }
}

impl HttpSniffer {
    pub fn new() -> (r: HttpSniffer)
        ensures
            r@ == Seq::<u8>::empty(),
    {
        HttpSniffer { buffer: Vec::new() }
    }

    /// Takes the bytes of one read. An empty read means that the peer closed.
    /// Otherwise the bytes are appended and the whole buffer is parsed afresh.
    pub fn feed(&mut self, bytes: &[u8]) -> (r: SniffAction)
        ensures
            final(self)@ == old(self)@ + bytes@,
            bytes@.len() == 0 ==> r@ == ActionModel::Closed,
            bytes@.len() > 0 ==> r@ == spec_decide(http_sniff_of(final(self)@)),
    {
        if bytes.len() == 0 {
            assert(old(self)@ + bytes@ =~= old(self)@);
            return SniffAction::Closed;
        }
        let mut i: usize = 0;
        while i < bytes.len()
            invariant
                i <= bytes@.len(),
                self@ == old(self)@ + bytes@.subrange(0, i as int),
            decreases bytes@.len() - i,
        {
            self.buffer.push(bytes[i]);
            i += 1;
            assert(self@ =~= old(self)@ + bytes@.subrange(0, i as int));
        }
        assert(bytes@.subrange(0, i as int) =~= bytes@);
        ProxyHttp::decide(sniff_http(self.buffer.as_slice()))
    }

    /// Everything read so far, byte for byte, handed back when the
    /// connection is not HTTP.
    pub fn into_buffer(self) -> (r: Vec<u8>)
        ensures
            r@ == self@,
    {
        self.buffer
    }

    /// What follows a successful dial: a CONNECT tunnel is acknowledged to the
    /// inbound side; any other request is replayed, exactly as read, to the
    /// outbound side before relaying starts.
    pub fn on_dialed(self, connect: bool) -> (r: Handoff)
        ensures
            connect ==> (r matches Handoff::ReplyInbound(v) && v@ == connect_ok_bytes()),
            !connect ==> (r matches Handoff::ReplayOutbound(v) && v@ == self@),
    {
        if connect {
            Handoff::ReplyInbound(ProxyHttp::connect_ok_response())
        } else {
            Handoff::ReplayOutbound(self.buffer)
        }
    }
}

} // verus!
