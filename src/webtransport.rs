use vstd::prelude::*;

use crate::connection::Connection;
use crate::error::{Error, ErrorLevel, ErrorModel, H3_SETTINGS_ERROR};
use crate::settings::Settings;
use crate::config::VARINT_MAX;
use crate::varint::{
    decode_varint, encode_varint, lemma_varint_round_trip, spec_varint_bytes, spec_varint_parse,
    varint_size,
};
use vstd::string::StringSliceAdditionalSpecFns;

verus! {

/// Leading value of a bidirectional stream that carries session data rather than a request.
pub const WEBTRANSPORT_BIDI_SIGNAL: u64 = 0x41;

/// Whether a setting is present with a non-zero value.
pub open spec fn spec_enabled(o: Option<u64>) -> bool {
    o matches Some(v) && v != 0
}

/// The peer announced WebTransport support.
pub open spec fn peer_supports_webtransport(p: Option<Settings>) -> bool {
    p matches Some(s) && spec_enabled(s.enable_webtransport)
}

/// The peer announced HTTP/3 datagram support.
pub open spec fn peer_supports_datagram(p: Option<Settings>) -> bool {
    p matches Some(s) && spec_enabled(s.h3_datagram)
}

fn enabled(o: Option<u64>) -> (r: bool)
    ensures
        r == spec_enabled(o),
{
    match o {
        Some(v) => v != 0,
        None => false,
    }
}

fn bytes_eq(a: &[u8], b: &[u8]) -> (r: bool)
    ensures
        r == (a@ == b@),
{
    if a.len() != b.len() {
        return false;
    }
    let mut i: usize = 0;
    while i < a.len()
        invariant
            a@.len() == b@.len(),
            i <= a@.len(),
            a@.subrange(0, i as int) == b@.subrange(0, i as int),
        decreases a@.len() - i,
    {
        if a[i] != b[i] {
            assert(a@[i as int] != b@[i as int]);
            return false;
        }
        assert(a@.subrange(0, i + 1) =~= a@.subrange(0, i as int).push(a@[i as int]));
        assert(b@.subrange(0, i + 1) =~= b@.subrange(0, i as int).push(b@[i as int]));
        i = i + 1;
    }
    assert(a@ =~= a@.subrange(0, i as int));
    assert(b@ =~= b@.subrange(0, i as int));
    true
}

/// Whether a request establishes a WebTransport session: an extended CONNECT whose
/// protocol is `webtransport`.
pub fn is_webtransport_request(method: &str, protocol: Option<&str>) -> (r: bool)
    ensures
        r == (method.spec_bytes() == "CONNECT".spec_bytes() && (protocol matches Some(p)
            && p.spec_bytes() == "webtransport".spec_bytes())),
{
    if !bytes_eq(method.as_bytes(), "CONNECT".as_bytes()) {
        return false;
    }
    match protocol {
        Some(p) => bytes_eq(p.as_bytes(), "webtransport".as_bytes()),
        None => false,
    }
}

/// A WebTransport session over one HTTP/3 connection, named by the id of the request
/// stream that established it.
pub struct WebTransportSession {
    conn: Connection,
    session_id: u64,
}

/// Where the leading bytes of an inbound stream or datagram send it.
#[derive(Clone, Copy, Debug, PartialEq, Eq, Structural)]
pub enum Route {
    /// Not enough bytes yet to tell.
    Incomplete,
    /// It belongs to this session; its own data starts at this offset.
    Session(usize),
    /// It names another session.
    Foreign,
    /// A bidirectional stream that carries a new request.
    Request,
}

/// Route of bytes that start with a session id.
pub open spec fn spec_route_tagged(session_id: u64, s: Seq<u8>) -> Route {
    match spec_varint_parse(s) {
        None => Route::Incomplete,
        Some((id, n)) => if id == session_id {
            Route::Session(n as usize)
        } else {
            Route::Foreign
        },
    }
}

/// Route of the leading bytes of a bidirectional stream: the data signal and a session id,
/// or else a request.
pub open spec fn spec_route_bidi(session_id: u64, s: Seq<u8>) -> Route {
    match spec_varint_parse(s) {
        None => Route::Incomplete,
        Some((t, n)) => if t != WEBTRANSPORT_BIDI_SIGNAL {
            Route::Request
        } else {
            match spec_varint_parse(s.skip(n as int)) {
                None => Route::Incomplete,
                Some((id, m)) => if id == session_id {
                    Route::Session((n + m) as usize)
                } else {
                    Route::Foreign
                },
            }
        },
    }
}

impl WebTransportSession {
    pub closed spec fn spec_connection(&self) -> Connection {
        self.conn
    }

    pub closed spec fn spec_session_id(&self) -> u64 {
        self.session_id
    }

    /// Establishes a session from the request on stream `session_id`. A connection that was
    /// already closed, by a failed control stream for instance, gives `Closed`. The peer must
    /// have announced both WebTransport and datagram support; otherwise the connection fails
    /// with `H3_SETTINGS_ERROR`, whatever this side's own configuration says.
    pub fn new(conn: Connection, session_id: u64) -> (r: Result<WebTransportSession, Error>)
        requires
            conn.wf(),
        ensures
            conn@.closed ==> (r matches Err(e) && e@ == ErrorModel::Closed),
            !conn@.closed && (!peer_supports_webtransport(conn@.peer_settings) || !peer_supports_datagram(
                conn@.peer_settings,
            )) ==> (r matches Err(e) && e@ == (ErrorModel::Application {
                code: H3_SETTINGS_ERROR,
                level: ErrorLevel::ConnectionError,
            })),
            !conn@.closed && peer_supports_webtransport(conn@.peer_settings) && peer_supports_datagram(
                conn@.peer_settings,
            ) ==> (r matches Ok(s) && s.spec_connection()@ == conn@
                && s.spec_session_id() == session_id),
    {
        let mut conn = conn;
        if conn.is_closed() {
            return Err(Error::Closed);
        }
        let peer = conn.peer_settings();
        let (wt, dg) = match peer {
            Some(s) => (enabled(s.enable_webtransport), enabled(s.h3_datagram)),
            None => (false, false),
        };
        if !wt {
            conn.close();
            return Err(
                Error::application(
                    H3_SETTINGS_ERROR,
                    "webtransport is not supported by client",
                    ErrorLevel::ConnectionError,
                ),
            );
        }
        if !dg {
            conn.close();
            return Err(
                Error::application(
                    H3_SETTINGS_ERROR,
                    "datagrams are not supported by client",
                    ErrorLevel::ConnectionError,
                ),
            );
        }
        Ok(WebTransportSession { conn, session_id })
    }

    /// The id of the session.
    pub fn session_id(&self) -> (r: u64)
        ensures
            r == self.spec_session_id(),
    {
        self.session_id
    }

    /// The connection the session runs on.
    pub fn connection(&self) -> (r: &Connection)
        ensures
            *r == self.spec_connection(),
    {
        &self.conn
    }

    /// Routes a datagram by its leading session id: only one of this session is delivered.
    pub fn route_datagram(&self, d: &[u8]) -> (r: Route)
        ensures
            r == spec_route_tagged(self.spec_session_id(), d@),
    {
        assert(d@.skip(0) =~= d@);
        match decode_varint(d, 0) {
            None => Route::Incomplete,
            Some((id, n)) => if id == self.session_id {
                Route::Session(n)
            } else {
                Route::Foreign
            },
        }
    }

    /// Frames a datagram of this session: its session id, then the payload.
    pub fn encode_datagram(&self, payload: &[u8]) -> (r: Vec<u8>)
        requires
            self.spec_session_id() <= VARINT_MAX,
        ensures
            r@ == spec_varint_bytes(self.spec_session_id()) + payload@,
    {
        let mut r: Vec<u8> = Vec::new();
        encode_varint(&mut r, self.session_id);
        let ghost head = r@;
        let mut i: usize = 0;
        while i < payload.len()
            invariant
                i <= payload@.len(),
                r@ == head + payload@.subrange(0, i as int),
            decreases payload@.len() - i,
        {
            r.push(payload[i]);
            i = i + 1;
            assert(r@ =~= head + payload@.subrange(0, i as int));
        }
        assert(payload@.subrange(0, i as int) =~= payload@);
        r
    }

    /// Routes an inbound unidirectional stream by the session id it starts with.
    pub fn route_uni(&self, header: &[u8]) -> (r: Route)
        ensures
            r == spec_route_tagged(self.spec_session_id(), header@),
    {
        self.route_datagram(header)
    }

    /// Routes an inbound bidirectional stream: session data, or a new request.
    pub fn route_bidi(&self, header: &[u8]) -> (r: Route)
        ensures
            r == spec_route_bidi(self.spec_session_id(), header@),
    {
        assert(header@.skip(0) =~= header@);
        match decode_varint(header, 0) {
            None => Route::Incomplete,
            Some((t, n)) => if t != WEBTRANSPORT_BIDI_SIGNAL {
                Route::Request
            } else {
                match decode_varint(header, n) {
                    None => Route::Incomplete,
                    Some((id, m)) => if id == self.session_id {
                        Route::Session(m)
                    } else {
                        Route::Foreign
                    },
                }
            },
        }
    }
}

/// A datagram framed for a session is routed back to that session, with its payload right
/// after the session id.
pub proof fn lemma_datagram_round_trip(session_id: u64, payload: Seq<u8>)
    requires
        session_id <= VARINT_MAX,
    ensures
        spec_route_tagged(session_id, spec_varint_bytes(session_id) + payload) == Route::Session(
            varint_size(session_id) as usize,
        ),
{
    lemma_varint_round_trip(session_id, payload);
}

/// State of one intake source of a session.
#[derive(Clone, Copy, Debug, PartialEq, Eq, Structural)]
pub enum Readiness {
    /// Something can be taken now.
    Ready,
    /// Nothing yet.
    Waiting,
    /// Nothing will ever come.
    Exhausted,
}

/// What a session waiting on its three sources does next.
#[derive(Clone, Copy, Debug, PartialEq, Eq, Structural)]
pub enum RaceOutcome {
    /// Take from this source: 0 datagrams, 1 unidirectional streams, 2 bidirectional streams.
    Pick(usize),
    /// Wait for a source to become ready.
    Wait,
    /// Every source is exhausted and the connection closed: nothing more will arrive.
    Done,
}

/// The first ready source, starting at `next` and going round.
pub open spec fn spec_pick(next: int, ready: Seq<Readiness>) -> int {
    let a = next % 3;
    let b = (next + 1) % 3;
    let c = (next + 2) % 3;
    if ready[a] == Readiness::Ready {
        a
    } else if ready[b] == Readiness::Ready {
        b
    } else if ready[c] == Readiness::Ready {
        c
    } else {
        -1
    }
}

/// Round-robin choice among the three sources of a session, so that none starves.
pub struct Race {
    next: usize,
}

impl Race {
    pub closed spec fn spec_next(&self) -> int {
        self.next as int
    }

    pub open spec fn wf(&self) -> bool {
        0 <= self.spec_next() < 3
    }

    /// A race that looks at datagrams first.
    pub fn new() -> (r: Race)
        ensures
            r.wf(),
            r.spec_next() == 0,
    {
        Race { next: 0 }
    }

    /// Picks the first ready source after the one picked last, going round.
    pub fn poll(&mut self, ready: [Readiness; 3], closed: bool) -> (r: RaceOutcome)
        requires
            old(self).wf(),
        ensures
            final(self).wf(),
            spec_pick(old(self).spec_next(), ready@) >= 0 ==> r == RaceOutcome::Pick(
                spec_pick(old(self).spec_next(), ready@) as usize,
            ) && final(self).spec_next() == (spec_pick(old(self).spec_next(), ready@) + 1) % 3,
            spec_pick(old(self).spec_next(), ready@) < 0 ==> final(self).spec_next()
                == old(self).spec_next() && if closed && ready@[0] == Readiness::Exhausted
                && ready@[1] == Readiness::Exhausted && ready@[2] == Readiness::Exhausted {
                r == RaceOutcome::Done
            } else {
                r == RaceOutcome::Wait
            },
    {
        let a = self.next;
        let b = (self.next + 1) % 3;
        let c = (self.next + 2) % 3;
        let pick = if ready[a] == Readiness::Ready {
            Some(a)
        } else if ready[b] == Readiness::Ready {
            Some(b)
        } else if ready[c] == Readiness::Ready {
            Some(c)
        } else {
            None
        };
        if let Some(i) = pick {
            self.next = (i + 1) % 3;
            return RaceOutcome::Pick(i);
        }
        if closed && ready[0] == Readiness::Exhausted && ready[1] == Readiness::Exhausted
            && ready[2] == Readiness::Exhausted {
            RaceOutcome::Done
        } else {
            RaceOutcome::Wait
        }
    }
}

/// A source that stays ready is picked within three polls of a race, whatever the others do.
pub proof fn lemma_race_no_starvation(
    next: int,
    r1: Seq<Readiness>,
    r2: Seq<Readiness>,
    r3: Seq<Readiness>,
    j: int,
)
    requires
        0 <= next < 3,
        0 <= j < 3,
        r1.len() == 3 && r2.len() == 3 && r3.len() == 3,
        r1[j] == Readiness::Ready,
        r2[j] == Readiness::Ready,
        r3[j] == Readiness::Ready,
    ensures
        ({
            let p1 = spec_pick(next, r1);
            let p2 = spec_pick((p1 + 1) % 3, r2);
            let p3 = spec_pick((p2 + 1) % 3, r3);
            p1 == j || p2 == j || p3 == j
        }),
{
}

/// The receiving side of a WebTransport stream.
#[derive(Debug)]
pub struct RecvStream {
    pub stream_id: u64,
    pub session_id: u64,
    /// The peer was asked to stop sending with this code.
    pub stop_sending_code: Option<u64>,
}

impl RecvStream {
    /// A receiving stream of session `session_id`.
    pub fn new(stream_id: u64, session_id: u64) -> (r: RecvStream)
        ensures
            r == (RecvStream { stream_id, session_id, stop_sending_code: None }),
    {
        RecvStream { stream_id, session_id, stop_sending_code: None }
    }

    /// Asks the peer to stop sending with `code`.
    pub fn stop_sending(&mut self, code: u64)
        ensures
            *final(self) == (RecvStream { stop_sending_code: Some(code), ..*old(self) }),
    {
        self.stop_sending_code = Some(code);
    }

    /// The id of the stream.
    pub fn recv_id(&self) -> (r: u64)
        ensures
            r == self.stream_id,
    {
        self.stream_id
    }
}

/// The sending side of a WebTransport stream.
#[derive(Debug)]
pub struct SendStream {
    pub stream_id: u64,
    pub session_id: u64,
    /// Number of bytes the transport took so far.
    pub written: u64,
    pub finished: bool,
    /// The stream was aborted with this code.
    pub reset_code: Option<u64>,
}

impl SendStream {
    /// A sending stream of session `session_id`.
    pub fn new(stream_id: u64, session_id: u64) -> (r: SendStream)
        ensures
            r == (SendStream { stream_id, session_id, written: 0, finished: false, reset_code: None }),
    {
        SendStream { stream_id, session_id, written: 0, finished: false, reset_code: None }
    }

    /// Records that the transport took `n` of the `remaining` bytes of a buffer; returns how
    /// many remain. Writing a whole buffer repeats this until nothing remains.
    pub fn write(&mut self, remaining: usize, n: usize) -> (r: usize)
        requires
            n <= remaining,
            old(self).written + n <= u64::MAX,
        ensures
            r == remaining - n,
            *final(self) == (SendStream { written: (old(self).written + n) as u64, ..*old(self) }),
    {
        self.written = self.written + n as u64;
        remaining - n
    }

    /// Records the graceful end of the stream.
    pub fn finish(&mut self)
        ensures
            *final(self) == (SendStream { finished: true, ..*old(self) }),
    {
        self.finished = true;
    }

    /// Aborts the stream with `code`.
    pub fn reset(&mut self, code: u64)
        ensures
            *final(self) == (SendStream { reset_code: Some(code), ..*old(self) }),
    {
        self.reset_code = Some(code);
    }

    /// The id of the stream.
    pub fn send_id(&self) -> (r: u64)
        ensures
            r == self.stream_id,
    {
        self.stream_id
    }
}

} // verus!
