use vstd::prelude::*;

use crate::config::VARINT_MAX;
use crate::error::Error;
use crate::frame::{encode_frame, spec_frame_bytes, Frame, FrameModel};

verus! {

/// Type of the reserved frame sent once to exercise the peer's tolerance of unknown frames.
pub const GREASE_FRAME_TYPE: u64 = 0x21;

/// The completion obligation of one request stream, shared by the handles that were split
/// from it. Each handle releases it once, on whichever path it ends; the last release
/// produces the single notification for the connection.
#[derive(Debug)]
pub struct RequestEnd {
    stream_id: u64,
    holders: u64,
    notified: bool,
}

/// Mathematical form of a completion obligation.
pub struct RequestEndView {
    pub stream_id: u64,
    /// Number of live handles that still owe a release.
    pub holders: nat,
    /// The notification was produced.
    pub notified: bool,
}

impl RequestEndView {
    pub open spec fn wf(self) -> bool {
        self.notified <==> self.holders == 0
    }
}

/// The obligation after one release, and the notification it produces, if any.
pub open spec fn spec_release(e: RequestEndView) -> (RequestEndView, Option<u64>) {
    if e.holders == 1 {
        (RequestEndView { holders: 0, notified: true, ..e }, Some(e.stream_id))
    } else {
        (RequestEndView { holders: (e.holders - 1) as nat, ..e }, None)
    }
}

/// Number of notifications produced by `n` releases in a row.
pub open spec fn spec_notifications(e: RequestEndView, n: nat) -> nat
    decreases n,
{
    if n == 0 {
        0
    } else {
        let (next, note) = spec_release(e);
        (if note is Some {
            1nat
        } else {
            0nat
        }) + spec_notifications(next, (n - 1) as nat)
    }
}

impl View for RequestEnd {
    type V = RequestEndView;

    closed spec fn view(&self) -> RequestEndView {
        RequestEndView {
            stream_id: self.stream_id,
            holders: self.holders as nat,
            notified: self.notified,
        }
    }
}

impl RequestEnd {
    /// The obligation of stream `stream_id`, held by one handle.
    pub fn new(stream_id: u64) -> (r: RequestEnd)
        ensures
            r@ == (RequestEndView { stream_id, holders: 1, notified: false }),
    {
        RequestEnd { stream_id, holders: 1, notified: false }
    }

    /// Adds a holder: one more handle now shares the obligation.
    pub fn share(&mut self)
        requires
            old(self)@.wf(),
            1 <= old(self)@.holders < u64::MAX,
        ensures
            final(self)@ == (RequestEndView { holders: old(self)@.holders + 1, ..old(self)@ }),
            final(self)@.wf(),
    {
        self.holders = self.holders + 1;
    }

    /// Releases one holder; the last release returns the id to notify.
    pub fn release(&mut self) -> (r: Option<u64>)
        requires
            old(self)@.wf(),
            old(self)@.holders >= 1,
        ensures
            (final(self)@, r) == spec_release(old(self)@),
            final(self)@.wf(),
    {
        self.holders = self.holders - 1;
        if self.holders == 0 {
            self.notified = true;
            Some(self.stream_id)
        } else {
            None
        }
    }

    /// Number of live handles that still owe a release.
    pub fn holders(&self) -> (r: u64)
        ensures
            r == self@.holders,
    {
        self.holders
    }

    /// The stream the obligation belongs to.
    pub fn stream_id(&self) -> (r: u64)
        ensures
            r == self@.stream_id,
    {
        self.stream_id
    }

    /// Whether the notification was produced.
    pub fn notified(&self) -> (r: bool)
        ensures
            r == self@.notified,
    {
        self.notified
    }
}

/// Releasing every holder of an obligation once produces exactly one notification, for its
/// stream, and nothing after that: whichever way each handle ended, dropped included.
pub proof fn lemma_single_notification(e: RequestEndView)
    requires
        e.wf(),
        e.holders >= 1,
    ensures
        spec_notifications(e, e.holders) == 1,
    decreases e.holders,
{
    let (next, note) = spec_release(e);
    if e.holders == 1 {
        assert(spec_notifications(next, 0) == 0);
    } else {
        lemma_single_notification(next);
    }
}

/// The state of a request stream handle: which directions it holds and how far the
/// response went. The driver does the transport work each call stands for.
#[derive(Debug)]
pub struct RequestStream {
    pub stream_id: u64,
    pub max_field_section_size: u64,
    /// The handle can send the response.
    pub sends: bool,
    /// The handle can receive the request body.
    pub receives: bool,
    /// A grease frame still goes out before the next body chunk.
    pub grease: bool,
    pub response_sent: bool,
    /// The response ended gracefully, by `finish` or trailers.
    pub finished: bool,
    /// The response was aborted with this code.
    pub reset_code: Option<u64>,
    /// The peer was asked to stop sending with this code.
    pub stop_sending_code: Option<u64>,
}

impl RequestStream {
    /// A handle holding both directions of stream `stream_id`.
    pub fn new(stream_id: u64, max_field_section_size: u64, grease: bool) -> (r: RequestStream)
        ensures
            r == (RequestStream {
                stream_id,
                max_field_section_size,
                sends: true,
                receives: true,
                grease,
                response_sent: false,
                finished: false,
                reset_code: None,
                stop_sending_code: None,
            }),
    {
        RequestStream {
            stream_id,
            max_field_section_size,
            sends: true,
            receives: true,
            grease,
            response_sent: false,
            finished: false,
            reset_code: None,
            stop_sending_code: None,
        }
    }

    /// Whether a header block of `encoded_size` bytes may be sent; otherwise the error
    /// carries both sizes.
    pub fn check_header_size(&self, encoded_size: u64) -> (r: Result<(), Error>)
        ensures
            encoded_size <= self.max_field_section_size ==> r is Ok,
            encoded_size > self.max_field_section_size ==> r == Err::<(), Error>(
                Error::HeaderTooBig {
                    actual_size: encoded_size,
                    max_size: self.max_field_section_size,
                },
            ),
    {
        if encoded_size > self.max_field_section_size {
            Err(Error::header_too_big(encoded_size, self.max_field_section_size))
        } else {
            Ok(())
        }
    }

    /// Frames the response head: `block` is the compressed header block, whose fields take
    /// `encoded_size` bytes. Refused when that exceeds the configured maximum; otherwise the
    /// bytes of the HEADERS frame to write are returned. Sent once, before any body chunk.
    pub fn send_response(&mut self, block: Vec<u8>, encoded_size: u64) -> (r: Result<Vec<u8>, Error>)
        requires
            !old(self).response_sent,
            block@.len() <= VARINT_MAX,
        ensures
            encoded_size <= old(self).max_field_section_size ==> (r matches Ok(bytes) && bytes@
                == spec_frame_bytes(FrameModel::Headers(block@)) && *final(self) == (RequestStream {
                response_sent: true,
                ..*old(self)
            })),
            encoded_size > old(self).max_field_section_size ==> *final(self) == *old(self)
                && r == Err::<Vec<u8>, Error>(
                Error::HeaderTooBig {
                    actual_size: encoded_size,
                    max_size: old(self).max_field_section_size,
                },
            ),
    {
        match self.check_header_size(encoded_size) {
            Err(e) => Err(e),
            Ok(()) => {
                self.response_sent = true;
                let mut bytes: Vec<u8> = Vec::new();
                encode_frame(&mut bytes, &Frame::Headers(block));
                Ok(bytes)
            },
        }
    }

    /// Frames one body chunk, after the response head: the bytes of its DATA frame, preceded
    /// by a grease frame the first time when the stream sends grease.
    pub fn send_data(&mut self, payload: Vec<u8>) -> (r: Vec<u8>)
        requires
            old(self).response_sent,
            payload@.len() <= VARINT_MAX,
        ensures
            r@ == (if old(self).grease {
                spec_frame_bytes(FrameModel::Unknown(GREASE_FRAME_TYPE))
            } else {
                Seq::empty()
            }) + spec_frame_bytes(FrameModel::Data(payload@)),
            *final(self) == (RequestStream { grease: false, ..*old(self) }),
    {
        let mut bytes: Vec<u8> = Vec::new();
        if self.grease {
            encode_frame(&mut bytes, &Frame::Unknown(GREASE_FRAME_TYPE));
            self.grease = false;
        }
        encode_frame(&mut bytes, &Frame::Data(payload));
        bytes
    }

    /// Frames the trailers, which end the response: `block` is their compressed header
    /// block, whose fields take `encoded_size` bytes. Refused when that exceeds the
    /// configured maximum; otherwise the bytes of the HEADERS frame to write are returned.
    pub fn send_trailers(&mut self, block: Vec<u8>, encoded_size: u64) -> (r: Result<Vec<u8>, Error>)
        requires
            block@.len() <= VARINT_MAX,
        ensures
            encoded_size <= old(self).max_field_section_size ==> (r matches Ok(bytes) && bytes@
                == spec_frame_bytes(FrameModel::Headers(block@)) && *final(self) == (RequestStream {
                finished: true,
                ..*old(self)
            })),
            encoded_size > old(self).max_field_section_size ==> *final(self) == *old(self)
                && r == Err::<Vec<u8>, Error>(
                Error::HeaderTooBig {
                    actual_size: encoded_size,
                    max_size: old(self).max_field_section_size,
                },
            ),
    {
        match self.check_header_size(encoded_size) {
            Err(e) => Err(e),
            Ok(()) => {
                self.finished = true;
                let mut bytes: Vec<u8> = Vec::new();
                encode_frame(&mut bytes, &Frame::Headers(block));
                Ok(bytes)
            },
        }
    }

    /// Records the graceful end of the response.
    pub fn finish(&mut self)
        ensures
            *final(self) == (RequestStream { finished: true, ..*old(self) }),
    {
        self.finished = true;
    }

    /// Aborts the response with `code`, overriding a pending graceful end.
    pub fn stop_stream(&mut self, code: u64)
        ensures
            *final(self) == (RequestStream { reset_code: Some(code), ..*old(self) }),
    {
        self.reset_code = Some(code);
    }

    /// Asks the peer to stop sending with `code`.
    pub fn stop_sending(&mut self, code: u64)
        ensures
            *final(self) == (RequestStream { stop_sending_code: Some(code), ..*old(self) }),
    {
        self.stop_sending_code = Some(code);
    }

    /// Whether the response is over, gracefully or not.
    pub fn is_done(&self) -> (r: bool)
        ensures
            r == (self.finished || self.reset_code is Some),
    {
        self.finished || self.reset_code.is_some()
    }

    /// Splits the handle into one that only sends and one that only receives; the two
    /// share the stream's completion obligation, which gains a holder.
    pub fn split(self, end: &mut RequestEnd) -> (r: (RequestStream, RequestStream))
        requires
            old(end)@.wf(),
            old(end)@.stream_id == self.stream_id,
            1 <= old(end)@.holders < u64::MAX,
        ensures
            final(end)@ == (RequestEndView { holders: old(end)@.holders + 1, ..old(end)@ }),
            final(end)@.wf(),
            r.0 == (RequestStream { receives: false, ..self }),
            r.1 == (RequestStream { sends: false, grease: false, ..self }),
    {
        end.share();
        let send = RequestStream { receives: false, ..self };
        let recv = RequestStream { sends: false, grease: false, ..self };
        (send, recv)
    }
}

} // verus!
