use vstd::prelude::*;

use std::collections::HashSet;

use crate::config::{Builder, Config, VARINT_MAX};
use crate::error::{
    Error, ErrorLevel, ErrorModel, H3_FRAME_UNEXPECTED, H3_ID_ERROR, H3_MESSAGE_ERROR, H3_REQUEST_INCOMPLETE,
};
use crate::frame::Frame;
use crate::settings::Settings;

verus! {

broadcast use vstd::std_specs::hash::group_hash_axioms;

/// Relies on http's `StatusCode::REQUEST_HEADER_FIELDS_TOO_LARGE`, whose number is 431.
#[verifier::external_body]
fn header_fields_too_large_status() -> (r: u16)
    ensures
        r == 431,
{
    http::StatusCode::REQUEST_HEADER_FIELDS_TOO_LARGE.as_u16()
}

/// What the transport answered to a request for the next bidirectional stream.
#[derive(Clone, Debug)]
pub enum StreamEvent {
    /// A stream with this id was opened by the peer.
    Accepted(u64),
    /// No stream is available yet.
    Pending,
    /// The transport will never deliver another stream.
    Finished,
    /// The transport failed.
    Failed(Error),
}

/// What reading the first frame of an accepted request stream gave.
#[derive(Clone, Debug)]
pub enum FirstFrame {
    /// A whole frame.
    Frame(Frame),
    /// The stream ended before any frame.
    Finished,
    /// Reading failed.
    Failed(Error),
}

/// What the header codec made of a request's header block.
#[derive(Clone, Debug)]
pub enum HeaderDecode {
    /// The block decodes to fields of this size in bytes.
    Decoded { size: u64 },
    /// Decoding failed.
    Failed(Error),
}

/// What the connection asks its driver to do next.
#[derive(Debug)]
pub enum Step {
    /// A request stream with this id was accepted: read its first frame.
    Stream(u64),
    /// Refuse the stream with this id: stop it in both directions with
    /// `H3_REQUEST_REJECTED`. When `end` holds, report end of input; else ask again.
    Reject { id: u64, end: bool },
    /// Nothing to do until the transport or a completing request wakes the driver.
    Pending,
    /// End of input: announce a final shutdown boundary and report that no request is left.
    End,
    /// The connection had already ended: report end of input quietly.
    Closed,
    /// The request's header block, to hand to the header codec.
    Headers(Vec<u8>),
    /// The header block fits: extract the request from the fields.
    Proceed,
    /// The request is accepted; `grease` says whether its stream sends the grease frame.
    Request { grease: bool },
    /// Close the connection with the error's code and reason, and report the error.
    Close(Error),
    /// Reset only the current stream with `code`, and report the error.
    ResetStream { code: u64, error: Error },
    /// Try to answer with `status` on the current stream, then report the error.
    RespondThenFail { status: u16, error: Error },
    /// Report the error.
    Fail(Error),
}

/// Mathematical form of a step.
pub enum StepModel {
    Stream(u64),
    Reject { id: u64, end: bool },
    Pending,
    End,
    Closed,
    Headers(Seq<u8>),
    Proceed,
    Request { grease: bool },
    Close(ErrorModel),
    ResetStream { code: u64, error: ErrorModel },
    RespondThenFail { status: u16, error: ErrorModel },
    Fail(ErrorModel),
}

impl View for Step {
    type V = StepModel;

    open spec fn view(&self) -> StepModel {
        match self {
            Step::Stream(id) => StepModel::Stream(*id),
            Step::Reject { id, end } => StepModel::Reject { id: *id, end: *end },
            Step::Pending => StepModel::Pending,
            Step::End => StepModel::End,
            Step::Closed => StepModel::Closed,
            Step::Headers(b) => StepModel::Headers(b@),
            Step::Proceed => StepModel::Proceed,
            Step::Request { grease } => StepModel::Request { grease: *grease },
            Step::Close(e) => StepModel::Close(e@),
            Step::ResetStream { code, error } => StepModel::ResetStream {
                code: *code,
                error: error@,
            },
            Step::RespondThenFail { status, error } => StepModel::RespondThenFail {
                status: *status,
                error: error@,
            },
            Step::Fail(e) => StepModel::Fail(e@),
        }
    }
}

/// Mathematical form of a connection's state.
pub struct ConnectionView {
    pub config: Config,
    /// The settings the peer announced, once they arrived.
    pub peer_settings: Option<Settings>,
    pub send_grease_frame: bool,
    /// Ids of the request streams whose handles are still live.
    pub ongoing: Set<u64>,
    /// The completion channel is closed: no completion will arrive any more.
    pub completions_closed: bool,
    /// Boundary announced by this side's shutdown, once there was one.
    pub sent_closing: Option<u64>,
    /// Boundary announced by the peer's shutdown, once there was one.
    pub recv_closing: Option<u64>,
    pub last_accepted: Option<u64>,
    /// A connection error closed the connection.
    pub closed: bool,
    /// End of input was reported.
    pub ended: bool,
    /// Number of streams accepted so far.
    pub accepted: nat,
    /// Number of accepted streams whose completion was recorded.
    pub completed: nat,
}

impl ConnectionView {
    pub open spec fn wf(self) -> bool {
        &&& self.ongoing.finite()
        &&& self.completed <= self.accepted
        &&& self.ongoing.len() == self.accepted - self.completed
        &&& forall|id: u64| #[trigger]
            self.ongoing.contains(id) ==> (self.last_accepted matches Some(l) && id <= l)
    }

    /// No request is left to wait for.
    pub open spec fn idle(self) -> bool {
        self.completions_closed || self.ongoing.is_empty()
    }

    /// Stream ids grow: a new one lies above the last accepted one.
    pub open spec fn fresh(self, id: u64) -> bool {
        self.last_accepted matches Some(l) ==> l < id
    }

    /// What every step keeps: the configuration, a non-decreasing last accepted id,
    /// a shutdown boundary that never grows once set, and an end that stays.
    pub open spec fn kept_by(self, next: ConnectionView) -> bool {
        &&& next.config == self.config
        &&& (self.last_accepted matches Some(l) ==> next.last_accepted matches Some(l2) && l <= l2)
        &&& (self.sent_closing matches Some(b) ==> next.sent_closing matches Some(b2) && b2 <= b)
        &&& (self.ended ==> next.ended)
        &&& (self.closed ==> next.closed)
    }
}

/// The step for an error: a closed connection ends quietly, a connection error closes the
/// connection, and a stream error resets the current stream when there is one.
pub open spec fn spec_on_error(c: ConnectionView, e: ErrorModel, on_stream: bool) -> (
    ConnectionView,
    StepModel,
) {
    match e {
        ErrorModel::Closed => (ConnectionView { closed: true, ..c }, StepModel::Closed),
        ErrorModel::Application { code, level } => if level == ErrorLevel::ConnectionError {
            (ConnectionView { closed: true, ..c }, StepModel::Close(e))
        } else if on_stream {
            (c, StepModel::ResetStream { code, error: e })
        } else {
            (c, StepModel::Fail(e))
        },
        _ => (c, StepModel::Fail(e)),
    }
}

/// The step for the transport's answer to a request for the next stream.
pub open spec fn spec_poll_accept(c: ConnectionView, ev: StreamEvent) -> (
    ConnectionView,
    StepModel,
) {
    if c.closed {
        (c, StepModel::Closed)
    } else if c.ended {
        match ev {
            StreamEvent::Accepted(id) => (c, StepModel::Reject { id, end: true }),
            _ => (c, StepModel::End),
        }
    } else {
        match ev {
            StreamEvent::Failed(e) => spec_on_error(c, e@, false),
            StreamEvent::Finished => if c.idle() {
                (ConnectionView { ended: true, ..c }, StepModel::End)
            } else {
                (c, StepModel::Pending)
            },
            StreamEvent::Pending => if c.recv_closing is Some && c.idle() {
                (ConnectionView { ended: true, ..c }, StepModel::End)
            } else {
                (c, StepModel::Pending)
            },
            StreamEvent::Accepted(id) => if c.sent_closing matches Some(b) && id > b {
                if c.idle() {
                    (ConnectionView { ended: true, ..c }, StepModel::Reject { id, end: true })
                } else {
                    (c, StepModel::Reject { id, end: false })
                }
            } else {
                (
                    ConnectionView {
                        last_accepted: Some(id),
                        ongoing: c.ongoing.insert(id),
                        accepted: c.accepted + 1,
                        ..c
                    },
                    StepModel::Stream(id),
                )
            },
        }
    }
}

/// The step for the first frame of an accepted request stream.
pub open spec fn spec_first_frame(c: ConnectionView, ev: FirstFrame) -> (
    ConnectionView,
    StepModel,
) {
    if c.closed {
        (c, StepModel::Closed)
    } else {
        match ev {
            FirstFrame::Frame(Frame::Headers(b)) => (c, StepModel::Headers(b@)),
            FirstFrame::Frame(_) => (
                ConnectionView { closed: true, ..c },
                StepModel::Close(
                    ErrorModel::Application {
                        code: H3_FRAME_UNEXPECTED,
                        level: ErrorLevel::ConnectionError,
                    },
                ),
            ),
            FirstFrame::Finished => (
                ConnectionView { closed: true, ..c },
                StepModel::Close(
                    ErrorModel::Application {
                        code: H3_REQUEST_INCOMPLETE,
                        level: ErrorLevel::ConnectionError,
                    },
                ),
            ),
            FirstFrame::Failed(e) => spec_on_error(c, e@, true),
        }
    }
}

/// The step for the header codec's answer.
pub open spec fn spec_headers_decoded(c: ConnectionView, ev: HeaderDecode) -> (
    ConnectionView,
    StepModel,
) {
    if c.closed {
        (c, StepModel::Closed)
    } else {
        match ev {
            HeaderDecode::Decoded { size } => if size > c.config.max_field_section_size {
                (
                    c,
                    StepModel::RespondThenFail {
                        status: 431,
                        error: ErrorModel::HeaderTooBig {
                            actual_size: size,
                            max_size: c.config.max_field_section_size,
                        },
                    },
                )
            } else {
                (c, StepModel::Proceed)
            },
            HeaderDecode::Failed(e) => spec_on_error(c, e@, true),
        }
    }
}

/// The step for the extraction of the request from the header fields.
pub open spec fn spec_request_parts(c: ConnectionView, parts: Result<(), Error>) -> (
    ConnectionView,
    StepModel,
) {
    if c.closed {
        (c, StepModel::Closed)
    } else {
        match parts {
            Ok(()) => (
                ConnectionView { send_grease_frame: false, ..c },
                StepModel::Request { grease: c.send_grease_frame },
            ),
            Err(e) => (
                c,
                StepModel::ResetStream {
                    code: match e@ {
                        ErrorModel::Application { code, .. } => code,
                        _ => H3_MESSAGE_ERROR,
                    },
                    error: e@,
                },
            ),
        }
    }
}

/// The state after the handle of stream `id` reported its completion.
pub open spec fn spec_request_end(c: ConnectionView, id: u64) -> ConnectionView {
    if c.ongoing.contains(id) {
        ConnectionView { ongoing: c.ongoing.remove(id), completed: c.completed + 1, ..c }
    } else {
        c
    }
}

/// Boundary of a shutdown that lets `max_requests` more streams in after the last accepted
/// one: their sum, capped at the largest varint, or the first request stream id when no
/// stream was accepted.
pub open spec fn spec_shutdown_boundary(c: ConnectionView, max_requests: u64) -> u64 {
    match c.last_accepted {
        Some(l) => if l + max_requests > VARINT_MAX {
            VARINT_MAX
        } else {
            (l + max_requests) as u64
        },
        None => 0,
    }
}

/// The state after a shutdown, and the boundary to announce: an earlier, lower boundary stays.
pub open spec fn spec_shutdown(c: ConnectionView, max_requests: u64) -> (ConnectionView, u64) {
    let nb = spec_shutdown_boundary(c, max_requests);
    let b = match c.sent_closing {
        Some(p) => if p < nb {
            p
        } else {
            nb
        },
        None => nb,
    };
    (ConnectionView { sent_closing: Some(b), ..c }, b)
}

/// The state after a frame of the control stream, and the error it raises, if any.
pub open spec fn spec_poll_control(c: ConnectionView, f: Frame) -> (
    ConnectionView,
    Option<ErrorModel>,
) {
    if c.closed {
        (c, Some(ErrorModel::Closed))
    } else {
        match f {
            Frame::Settings(s) => (ConnectionView { peer_settings: Some(s), ..c }, None),
            Frame::MaxPushId(_) | Frame::CancelPush(_) => (c, None),
            Frame::Goaway(id) => match c.recv_closing {
                Some(p) if id > p => (
                    ConnectionView { closed: true, ..c },
                    Some(ErrorModel::Application { code: H3_ID_ERROR, level: ErrorLevel::ConnectionError }),
                ),
                _ => (ConnectionView { recv_closing: Some(id), ..c }, None),
            },
            _ => (
                ConnectionView { closed: true, ..c },
                Some(
                    ErrorModel::Application {
                        code: H3_FRAME_UNEXPECTED,
                        level: ErrorLevel::ConnectionError,
                    },
                ),
            ),
        }
    }
}

/// Accepting a stream and recording a completion keep the number of ongoing streams equal
/// to the number of accepted streams minus the number of completed ones.
pub proof fn lemma_ongoing_count(c: ConnectionView, ev: StreamEvent, id: u64)
    requires
        c.wf(),
        ev matches StreamEvent::Accepted(a) ==> c.fresh(a),
    ensures
        spec_poll_accept(c, ev).0.wf(),
        spec_poll_accept(c, ev).0.ongoing.len() == spec_poll_accept(c, ev).0.accepted
            - spec_poll_accept(c, ev).0.completed,
        spec_request_end(c, id).wf(),
        spec_request_end(c, id).ongoing.len() == spec_request_end(c, id).accepted
            - spec_request_end(c, id).completed,
{
    if let StreamEvent::Accepted(a) = ev {
        if !c.closed && !c.ended && !(c.sent_closing matches Some(b) && a > b) {
            assert(!c.ongoing.contains(a));
            let n = spec_poll_accept(c, ev).0;
            assert(n.ongoing == c.ongoing.insert(a));
            assert(n.ongoing.len() == c.ongoing.len() + 1);
        }
    }
    if c.ongoing.contains(id) {
        assert(c.ongoing.remove(id).len() == c.ongoing.len() - 1);
    }
}

/// The last accepted stream id never decreases, whatever the step: accepting, recording a
/// completion, a control frame or a shutdown.
pub proof fn lemma_last_accepted_monotone(
    c: ConnectionView,
    ev: StreamEvent,
    id: u64,
    f: Frame,
    max_requests: u64,
)
    requires
        c.wf(),
        ev matches StreamEvent::Accepted(a) ==> c.fresh(a),
    ensures
        c.kept_by(spec_poll_accept(c, ev).0),
        c.kept_by(spec_request_end(c, id)),
        c.kept_by(spec_poll_control(c, f).0),
        c.kept_by(spec_shutdown(c, max_requests).0),
{
}

/// Every step keeps what the steps before it kept: `kept_by` chains over a run of steps.
pub proof fn lemma_kept_by_chains(a: ConnectionView, b: ConnectionView, c: ConnectionView)
    requires
        a.kept_by(b),
        b.kept_by(c),
    ensures
        a.kept_by(c),
{
}

/// After a shutdown that admits `max_requests` streams past the last accepted id `s`, a
/// stream with an id above `s + max_requests` that arrives in any later state is refused
/// and never becomes ongoing.
pub proof fn lemma_shutdown_rejects_beyond(
    c: ConnectionView,
    max_requests: u64,
    later: ConnectionView,
    id: u64,
)
    requires
        c.wf(),
        c.last_accepted is Some,
        spec_shutdown(c, max_requests).0.kept_by(later),
        later.wf(),
        later.fresh(id),
        id > c.last_accepted->Some_0 + max_requests,
    ensures
        spec_poll_accept(later, StreamEvent::Accepted(id)).1 matches StepModel::Reject { id: rid, .. } && rid == id
            || spec_poll_accept(later, StreamEvent::Accepted(id)).1 is Closed,
        !spec_poll_accept(later, StreamEvent::Accepted(id)).0.ongoing.contains(id),
        spec_poll_accept(later, StreamEvent::Accepted(id)).0.ongoing == later.ongoing,
{
}

/// When the transport has no further streams, `accept` reports end of input exactly when no
/// request is left, and keeps reporting it from then on.
pub proof fn lemma_end_of_input(c: ConnectionView, ev: StreamEvent)
    requires
        c.wf(),
        !c.closed,
        !c.completions_closed,
    ensures
        (spec_poll_accept(c, StreamEvent::Finished).1 is End) <==> (c.ended
            || c.ongoing.is_empty()),
        spec_poll_accept(c, StreamEvent::Finished).1 is End ==> spec_poll_accept(
            c,
            StreamEvent::Finished,
        ).0.ended,
        c.ended ==> spec_poll_accept(c, ev).0 == c && (spec_poll_accept(c, ev).1 is End
            || spec_poll_accept(c, ev).1 matches StepModel::Reject { end: true, .. }),
{
}

/// A header block larger than the configured maximum always fails with both sizes, the
/// actual one above the configured one, after a 431 answer on its stream.
pub proof fn lemma_header_too_big(c: ConnectionView, size: u64)
    requires
        !c.closed,
        size > c.config.max_field_section_size,
    ensures
        spec_headers_decoded(c, HeaderDecode::Decoded { size }).1 == (StepModel::RespondThenFail {
            status: 431,
            error: ErrorModel::HeaderTooBig {
                actual_size: size,
                max_size: c.config.max_field_section_size,
            },
        }),
{
}

/// The server side of an HTTP/3 connection: admission of request streams, bookkeeping of
/// the live ones, and shutdown negotiation. A driver performs the transport work that each
/// step asks for and feeds the outcome back.
pub struct Connection {
    config: Config,
    peer_settings: Option<Settings>,
    send_grease_frame: bool,
    ongoing_streams: HashSet<u64>,
    completions_closed: bool,
    sent_closing: Option<u64>,
    recv_closing: Option<u64>,
    last_accepted_stream: Option<u64>,
    closed: bool,
    ended: bool,
    accepted: Ghost<nat>,
    completed: Ghost<nat>,
}

impl View for Connection {
    type V = ConnectionView;

    closed spec fn view(&self) -> ConnectionView {
        ConnectionView {
            config: self.config,
            peer_settings: self.peer_settings,
            send_grease_frame: self.send_grease_frame,
            ongoing: self.ongoing_streams@,
            completions_closed: self.completions_closed,
            sent_closing: self.sent_closing,
            recv_closing: self.recv_closing,
            last_accepted: self.last_accepted_stream,
            closed: self.closed,
            ended: self.ended,
            accepted: self.accepted@,
            completed: self.completed@,
        }
    }
}

/// The state of a connection that was just built.
pub open spec fn spec_new_connection(config: Config) -> ConnectionView {
    ConnectionView {
        config,
        peer_settings: None,
        send_grease_frame: config.send_grease,
        ongoing: Set::empty(),
        completions_closed: false,
        sent_closing: None,
        recv_closing: None,
        last_accepted: None,
        closed: false,
        ended: false,
        accepted: 0,
        completed: 0,
    }
}

impl Connection {
    pub open spec fn wf(&self) -> bool {
        self@.wf()
    }

    /// A connection with the default settings.
    pub fn new() -> (r: Connection)
        ensures
            r.wf(),
            r@ == spec_new_connection(Config::spec_default()),
    {
        Connection::with_config(Config::new())
    }

    /// A connection with the given settings.
    pub fn with_config(config: Config) -> (r: Connection)
        ensures
            r.wf(),
            r@ == spec_new_connection(config),
    {
        let r = Connection {
            config,
            peer_settings: None,
            send_grease_frame: config.send_grease,
            ongoing_streams: HashSet::new(),
            completions_closed: false,
            sent_closing: None,
            recv_closing: None,
            last_accepted_stream: None,
            closed: false,
            ended: false,
            accepted: Ghost(0),
            completed: Ghost(0),
        };
        assert(r@.ongoing.len() == 0);
        r
    }

    /// The local configuration.
    pub fn config(&self) -> (r: Config)
        ensures
            r == self@.config,
    {
        self.config
    }

    /// Number of request streams whose handles are still live.
    pub fn ongoing_count(&self) -> (r: usize)
        requires
            self.wf(),
        ensures
            r == self@.ongoing.len(),
    {
        self.ongoing_streams.len()
    }

    /// Whether the handle of stream `id` is still live.
    pub fn is_ongoing(&self, id: u64) -> (r: bool)
        ensures
            r == self@.ongoing.contains(id),
    {
        self.ongoing_streams.contains(&id)
    }

    /// The settings the peer announced, once they arrived.
    pub fn peer_settings(&self) -> (r: Option<Settings>)
        ensures
            r == self@.peer_settings,
    {
        self.peer_settings
    }

    /// Closes the connection after a connection error.
    pub fn close(&mut self)
        requires
            old(self).wf(),
        ensures
            final(self).wf(),
            old(self)@.kept_by(final(self)@),
            final(self)@ == (ConnectionView { closed: true, ..old(self)@ }),
    {
        self.closed = true;
    }

    /// The id of the last accepted stream.
    pub fn last_accepted_stream(&self) -> (r: Option<u64>)
        ensures
            r == self@.last_accepted,
    {
        self.last_accepted_stream
    }

    /// The boundary of this side's shutdown, once there was one.
    pub fn sent_closing(&self) -> (r: Option<u64>)
        ensures
            r == self@.sent_closing,
    {
        self.sent_closing
    }

    /// The boundary of the peer's shutdown, once there was one.
    pub fn recv_closing(&self) -> (r: Option<u64>)
        ensures
            r == self@.recv_closing,
    {
        self.recv_closing
    }

    /// Whether a connection error closed the connection.
    pub fn is_closed(&self) -> (r: bool)
        ensures
            r == self@.closed,
    {
        self.closed
    }

    fn idle(&self) -> (r: bool)
        ensures
            r == self@.idle(),
    {
        self.completions_closed || self.ongoing_streams.is_empty()
    }

    fn on_error(&mut self, e: Error, on_stream: bool) -> (r: Step)
        requires
            old(self).wf(),
        ensures
            final(self).wf(),
            (final(self)@, r@) == spec_on_error(old(self)@, e@, on_stream),
    {
        let level = e.get_error_level();
        if e.is_closed() {
            self.closed = true;
            return Step::Closed;
        }
        match e.try_get_code() {
            Some(code) => if level == ErrorLevel::ConnectionError {
                self.closed = true;
                Step::Close(e)
            } else if on_stream {
                Step::ResetStream { code, error: e }
            } else {
                Step::Fail(e)
            },
            None => Step::Fail(e),
        }
    }

    /// Handles one frame of the peer's control stream. Settings are recorded, push
    /// frames are accepted and ignored, a shutdown boundary is recorded unless it grows past
    /// an earlier one (`H3_ID_ERROR`), and any other frame is `H3_FRAME_UNEXPECTED`. Errors
    /// close the connection; on a closed connection nothing changes and `Closed` is reported.
    pub fn poll_control(&mut self, frame: &Frame) -> (r: Result<(), Error>)
        requires
            old(self).wf(),
        ensures
            final(self).wf(),
            old(self)@.kept_by(final(self)@),
            final(self)@ == spec_poll_control(old(self)@, *frame).0,
            match spec_poll_control(old(self)@, *frame).1 {
                None => r is Ok,
                Some(e) => r matches Err(err) && err@ == e,
            },
    {
        if self.closed {
            return Err(Error::Closed);
        }
        match frame {
            Frame::Settings(s) => {
                self.peer_settings = Some(*s);
                Ok(())
            },
            Frame::MaxPushId(_) | Frame::CancelPush(_) => Ok(()),
            Frame::Goaway(id) => {
                if let Some(p) = self.recv_closing {
                    if *id > p {
                        self.closed = true;
                        return Err(
                            Error::application(
                                H3_ID_ERROR,
                                "received a shutdown boundary greater than the last one",
                                ErrorLevel::ConnectionError,
                            ),
                        );
                    }
                }
                self.recv_closing = Some(*id);
                Ok(())
            },
            _ => {
                self.closed = true;
                Err(
                    Error::application(
                        H3_FRAME_UNEXPECTED,
                        "unexpected frame on the control stream",
                        ErrorLevel::ConnectionError,
                    ),
                )
            },
        }
    }

    /// Records that the handle of stream `id` completed.
    pub fn on_request_end(&mut self, id: u64)
        requires
            old(self).wf(),
        ensures
            final(self).wf(),
            old(self)@.kept_by(final(self)@),
            final(self)@ == spec_request_end(old(self)@, id),
    {
        let ghost c = self@;
        if self.ongoing_streams.contains(&id) {
            self.ongoing_streams.remove(&id);
            self.completed = Ghost(self.completed@ + 1);
            assert(c.ongoing.remove(id).len() == c.ongoing.len() - 1);
        }
    }

    /// Records that the completion channel closed: no completion will arrive any more.
    pub fn on_completions_closed(&mut self)
        requires
            old(self).wf(),
        ensures
            final(self).wf(),
            old(self)@.kept_by(final(self)@),
            final(self)@ == (ConnectionView { completions_closed: true, ..old(self)@ }),
    {
        self.completions_closed = true;
    }

    /// Decides what follows the transport's answer to a request for the next stream.
    pub fn poll_accept_request(&mut self, ev: StreamEvent) -> (r: Step)
        requires
            old(self).wf(),
            ev matches StreamEvent::Accepted(id) ==> old(self)@.fresh(id),
        ensures
            final(self).wf(),
            old(self)@.kept_by(final(self)@),
            (final(self)@, r@) == spec_poll_accept(old(self)@, ev),
    {
        if self.closed {
            return Step::Closed;
        }
        if self.ended {
            return match ev {
                StreamEvent::Accepted(id) => Step::Reject { id, end: true },
                _ => Step::End,
            };
        }
        match ev {
            StreamEvent::Failed(e) => self.on_error(e, false),
            StreamEvent::Finished => if self.idle() {
                self.ended = true;
                Step::End
            } else {
                Step::Pending
            },
            StreamEvent::Pending => if self.recv_closing.is_some() && self.idle() {
                self.ended = true;
                Step::End
            } else {
                Step::Pending
            },
            StreamEvent::Accepted(id) => {
                if let Some(b) = self.sent_closing {
                    if id > b {
                        if self.idle() {
                            self.ended = true;
                            return Step::Reject { id, end: true };
                        } else {
                            return Step::Reject { id, end: false };
                        }
                    }
                }
                let ghost c = self@;
                self.last_accepted_stream = Some(id);
                self.ongoing_streams.insert(id);
                self.accepted = Ghost(self.accepted@ + 1);
                assert(!c.ongoing.contains(id));
                assert(c.ongoing.insert(id).len() == c.ongoing.len() + 1);
                Step::Stream(id)
            },
        }
    }

    /// Decides what follows the first frame of an accepted request stream: a header block
    /// goes on to the codec; a stream that ends first is `H3_REQUEST_INCOMPLETE` and any other
    /// frame `H3_FRAME_UNEXPECTED`, both closing the connection.
    pub fn on_first_frame(&mut self, ev: FirstFrame) -> (r: Step)
        requires
            old(self).wf(),
        ensures
            final(self).wf(),
            old(self)@.kept_by(final(self)@),
            (final(self)@, r@) == spec_first_frame(old(self)@, ev),
    {
        if self.closed {
            return Step::Closed;
        }
        match ev {
            FirstFrame::Frame(Frame::Headers(b)) => Step::Headers(b),
            FirstFrame::Frame(_) => {
                self.closed = true;
                Step::Close(
                    Error::application(
                        H3_FRAME_UNEXPECTED,
                        "first request frame is not headers",
                        ErrorLevel::ConnectionError,
                    ),
                )
            },
            FirstFrame::Finished => {
                self.closed = true;
                Step::Close(
                    Error::application(
                        H3_REQUEST_INCOMPLETE,
                        "request stream closed before headers",
                        ErrorLevel::ConnectionError,
                    ),
                )
            },
            FirstFrame::Failed(e) => self.on_error(e, true),
        }
    }

    /// Decides what follows the header codec's answer: a block larger than the configured
    /// maximum is answered with status 431 and reported with both sizes.
    pub fn on_headers_decoded(&mut self, ev: HeaderDecode) -> (r: Step)
        requires
            old(self).wf(),
        ensures
            final(self).wf(),
            old(self)@.kept_by(final(self)@),
            (final(self)@, r@) == spec_headers_decoded(old(self)@, ev),
    {
        if self.closed {
            return Step::Closed;
        }
        match ev {
            HeaderDecode::Decoded { size } => if size > self.config.max_field_section_size {
                Step::RespondThenFail {
                    status: header_fields_too_large_status(),
                    error: Error::header_too_big(size, self.config.max_field_section_size),
                }
            } else {
                Step::Proceed
            },
            HeaderDecode::Failed(e) => self.on_error(e, true),
        }
    }

    /// Decides what follows the extraction of the request: a malformed request resets its
    /// stream (`H3_MESSAGE_ERROR` unless the error has a code); an accepted one takes the
    /// grease flag, which only the first accepted request gets.
    pub fn on_request_parts(&mut self, parts: Result<(), Error>) -> (r: Step)
        requires
            old(self).wf(),
        ensures
            final(self).wf(),
            old(self)@.kept_by(final(self)@),
            (final(self)@, r@) == spec_request_parts(old(self)@, parts),
    {
        if self.closed {
            return Step::Closed;
        }
        match parts {
            Ok(()) => {
                let grease = self.send_grease_frame;
                self.send_grease_frame = false;
                Step::Request { grease }
            },
            Err(e) => {
                let code = match e.try_get_code() {
                    Some(c) => c,
                    None => H3_MESSAGE_ERROR,
                };
                Step::ResetStream { code, error: e }
            },
        }
    }

    /// Starts a graceful shutdown that still admits `max_requests` streams after the last
    /// accepted one, and returns the boundary to announce in a shutdown frame.
    pub fn shutdown(&mut self, max_requests: u64) -> (r: u64)
        requires
            old(self).wf(),
        ensures
            final(self).wf(),
            old(self)@.kept_by(final(self)@),
            (final(self)@, r) == spec_shutdown(old(self)@, max_requests),
            r <= VARINT_MAX,
    {
        let nb: u64 = match self.last_accepted_stream {
            Some(l) => if max_requests > VARINT_MAX || l > VARINT_MAX - max_requests {
                VARINT_MAX
            } else {
                l + max_requests
            },
            None => 0,
        };
        let b = match self.sent_closing {
            Some(p) => if p < nb {
                p
            } else {
                nb
            },
            None => nb,
        };
        self.sent_closing = Some(b);
        b
    }
}

impl Builder {
    /// Builds a server connection with this builder's settings.
    pub fn build(&self) -> (r: Connection)
        ensures
            r.wf(),
            r@ == spec_new_connection(self.config),
    {
        Connection::with_config(self.config)
    }
}

} // verus!
