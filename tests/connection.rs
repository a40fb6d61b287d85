use h3::config::{builder, Config};
use h3::connection::{Connection, FirstFrame, HeaderDecode, Step, StreamEvent};
use h3::error::{Error, ErrorLevel};
use h3::frame::Frame;
use h3::settings::Settings;

fn accept_id(c: &mut Connection, id: u64) {
    match c.poll_accept_request(StreamEvent::Accepted(id)) {
        Step::Stream(got) => assert_eq!(got, id),
        other => panic!("unexpected {:?}", other),
    }
}

#[test]
fn config_defaults() {
    let c = Config::new();
    assert!(c.send_grease);
    assert_eq!(c.max_field_section_size, (1u64 << 62) - 1);
    assert!(!c.enable_webtransport);
    assert!(!c.enable_connect);
    assert!(!c.enable_datagram);
    assert_eq!(c.max_webtransport_sessions, 0);
}

#[test]
fn builder_setters_chain() {
    let mut b = builder();
    b.max_field_section_size(1000).send_grease(false).enable_webtransport(true);
    assert_eq!(b.config.max_field_section_size, 1000);
    assert!(!b.config.send_grease);
    assert!(b.config.enable_webtransport);
    let conn = b.build();
    assert_eq!(conn.config().max_field_section_size, 1000);
}

#[test]
fn config_setters() {
    let mut c = Config::new();
    c.enable_connect(true);
    c.enable_datagram(true);
    c.max_webtransport_sessions(3);
    assert!(c.enable_connect && c.enable_datagram);
    assert_eq!(c.max_webtransport_sessions, 3);
}

#[test]
fn ongoing_count_follows_accepts_and_completions() {
    let mut c = Connection::new();
    accept_id(&mut c, 0);
    accept_id(&mut c, 4);
    accept_id(&mut c, 8);
    assert_eq!(c.ongoing_count(), 3);
    c.on_request_end(4);
    assert_eq!(c.ongoing_count(), 2);
    c.on_request_end(4);
    assert_eq!(c.ongoing_count(), 2);
    assert!(!c.is_ongoing(4));
    assert!(c.is_ongoing(8));
    assert_eq!(c.last_accepted_stream(), Some(8));
}

#[test]
fn shutdown_boundary_scenario() {
    let mut c = Connection::new();
    accept_id(&mut c, 4);
    accept_id(&mut c, 8);
    assert_eq!(c.shutdown(4), 12);
    match c.poll_accept_request(StreamEvent::Accepted(16)) {
        Step::Reject { id: 16, end: false } => {}
        other => panic!("unexpected {:?}", other),
    }
    assert!(!c.is_ongoing(16));
    accept_id(&mut c, 12);
    assert_eq!(c.ongoing_count(), 3);
}

#[test]
fn shutdown_without_streams_uses_first_request_id() {
    let mut c = Connection::new();
    assert_eq!(c.shutdown(10), 0);
    assert_eq!(c.sent_closing(), Some(0));
}

#[test]
fn shutdown_boundary_never_grows() {
    let mut c = Connection::new();
    accept_id(&mut c, 8);
    assert_eq!(c.shutdown(4), 12);
    assert_eq!(c.shutdown(100), 12);
    assert_eq!(c.shutdown(0), 8);
}

#[test]
fn rejection_when_idle_ends_input() {
    let mut c = Connection::new();
    accept_id(&mut c, 0);
    c.shutdown(0);
    c.on_request_end(0);
    match c.poll_accept_request(StreamEvent::Accepted(4)) {
        Step::Reject { id: 4, end: true } => {}
        other => panic!("unexpected {:?}", other),
    }
}

#[test]
fn end_of_input_waits_for_ongoing_requests() {
    let mut c = Connection::new();
    accept_id(&mut c, 0);
    assert!(matches!(c.poll_accept_request(StreamEvent::Finished), Step::Pending));
    c.on_request_end(0);
    assert!(matches!(c.poll_accept_request(StreamEvent::Finished), Step::End));
    assert!(matches!(c.poll_accept_request(StreamEvent::Finished), Step::End));
    assert!(matches!(c.poll_accept_request(StreamEvent::Pending), Step::End));
}

#[test]
fn closed_completion_channel_counts_as_idle() {
    let mut c = Connection::new();
    accept_id(&mut c, 0);
    c.on_completions_closed();
    assert!(matches!(c.poll_accept_request(StreamEvent::Finished), Step::End));
}

#[test]
fn peer_shutdown_with_idle_connection_ends_input() {
    let mut c = Connection::new();
    assert!(matches!(c.poll_accept_request(StreamEvent::Pending), Step::Pending));
    assert!(c.poll_control(&Frame::Goaway(8)).is_ok());
    assert_eq!(c.recv_closing(), Some(8));
    assert!(matches!(c.poll_accept_request(StreamEvent::Pending), Step::End));
}

#[test]
fn control_frames() {
    let mut c = Connection::new();
    assert!(c.poll_control(&Frame::Settings(Settings::empty())).is_ok());
    assert_eq!(c.peer_settings(), Some(Settings::empty()));
    assert!(c.poll_control(&Frame::MaxPushId(3)).is_ok());
    assert!(c.poll_control(&Frame::CancelPush(3)).is_ok());
    assert!(c.poll_control(&Frame::Goaway(8)).is_ok());
    assert!(c.poll_control(&Frame::Goaway(4)).is_ok());
    assert!(!c.is_closed());
}

#[test]
fn growing_peer_boundary_is_id_error() {
    let mut c = Connection::new();
    assert!(c.poll_control(&Frame::Goaway(4)).is_ok());
    match c.poll_control(&Frame::Goaway(8)) {
        Err(Error::Application { code: 0x108, level: ErrorLevel::ConnectionError, .. }) => {}
        other => panic!("unexpected {:?}", other),
    }
    assert!(c.is_closed());
}

#[test]
fn data_frame_on_control_stream_is_unexpected() {
    let mut c = Connection::new();
    match c.poll_control(&Frame::Data(vec![1])) {
        Err(Error::Application { code: 0x105, level: ErrorLevel::ConnectionError, .. }) => {}
        other => panic!("unexpected {:?}", other),
    }
    assert!(matches!(c.poll_accept_request(StreamEvent::Pending), Step::Closed));
}

#[test]
fn control_frame_on_closed_connection_is_quiet() {
    let mut c = Connection::new();
    assert!(c.poll_control(&Frame::PushPromise(vec![])).is_err());
    assert!(matches!(c.poll_control(&Frame::Goaway(4)), Err(Error::Closed)));
    assert_eq!(c.recv_closing(), None);
}

#[test]
fn first_frame_headers_goes_to_codec() {
    let mut c = Connection::new();
    accept_id(&mut c, 0);
    match c.on_first_frame(FirstFrame::Frame(Frame::Headers(vec![9, 9]))) {
        Step::Headers(b) => assert_eq!(b, vec![9, 9]),
        other => panic!("unexpected {:?}", other),
    }
}

#[test]
fn first_frame_missing_is_request_incomplete() {
    let mut c = Connection::new();
    accept_id(&mut c, 0);
    match c.on_first_frame(FirstFrame::Finished) {
        Step::Close(Error::Application { code: 0x10d, level: ErrorLevel::ConnectionError, .. }) => {}
        other => panic!("unexpected {:?}", other),
    }
    assert!(c.is_closed());
}

#[test]
fn first_frame_data_is_frame_unexpected() {
    let mut c = Connection::new();
    accept_id(&mut c, 0);
    match c.on_first_frame(FirstFrame::Frame(Frame::Data(vec![]))) {
        Step::Close(Error::Application { code: 0x105, .. }) => {}
        other => panic!("unexpected {:?}", other),
    }
}

#[test]
fn first_frame_stream_error_resets_stream() {
    let mut c = Connection::new();
    accept_id(&mut c, 0);
    let e = Error::application(0x10c, "cancelled", ErrorLevel::StreamError);
    match c.on_first_frame(FirstFrame::Failed(e)) {
        Step::ResetStream { code: 0x10c, .. } => {}
        other => panic!("unexpected {:?}", other),
    }
    assert!(!c.is_closed());
}

#[test]
fn first_frame_closed_connection_is_quiet() {
    let mut c = Connection::new();
    accept_id(&mut c, 0);
    assert!(matches!(c.on_first_frame(FirstFrame::Failed(Error::Closed)), Step::Closed));
    assert!(matches!(c.poll_accept_request(StreamEvent::Finished), Step::Closed));
}

#[test]
fn transport_connection_error_closes() {
    let mut c = Connection::new();
    let e = Error::application(0x101, "boom", ErrorLevel::ConnectionError);
    assert!(matches!(c.poll_accept_request(StreamEvent::Failed(e)), Step::Close(_)));
    assert!(c.is_closed());
}

#[test]
fn transport_stream_error_is_reported() {
    let mut c = Connection::new();
    let e = Error::application(0x10c, "cancelled", ErrorLevel::StreamError);
    assert!(matches!(c.poll_accept_request(StreamEvent::Failed(e)), Step::Fail(_)));
    assert!(!c.is_closed());
}

#[test]
fn header_block_too_large_scenario() {
    let mut b = builder();
    b.max_field_section_size(1000);
    let mut c = b.build();
    accept_id(&mut c, 0);
    match c.on_headers_decoded(HeaderDecode::Decoded { size: 1200 }) {
        Step::RespondThenFail {
            status,
            error: Error::HeaderTooBig { actual_size, max_size },
        } => {
            assert_eq!(status, 431);
            assert_eq!(actual_size, 1200);
            assert_eq!(max_size, 1000);
        }
        other => panic!("unexpected {:?}", other),
    }
}

#[test]
fn header_block_at_limit_proceeds() {
    let mut b = builder();
    b.max_field_section_size(1000);
    let mut c = b.build();
    assert!(matches!(c.on_headers_decoded(HeaderDecode::Decoded { size: 1000 }), Step::Proceed));
}

#[test]
fn decode_stream_error_resets_stream() {
    let mut c = Connection::new();
    let e = Error::application(0x200, "decompression failed", ErrorLevel::StreamError);
    assert!(matches!(
        c.on_headers_decoded(HeaderDecode::Failed(e)),
        Step::ResetStream { code: 0x200, .. }
    ));
}

#[test]
fn grease_goes_to_first_request_only() {
    let mut c = Connection::new();
    assert!(matches!(c.on_request_parts(Ok(())), Step::Request { grease: true }));
    assert!(matches!(c.on_request_parts(Ok(())), Step::Request { grease: false }));
}

#[test]
fn malformed_request_is_message_error() {
    let mut c = Connection::new();
    assert!(matches!(
        c.on_request_parts(Err(Error::Closed)),
        Step::ResetStream { code: 0x10e, .. }
    ));
}

#[test]
fn error_helpers() {
    let e = Error::header_too_big(10, 5);
    assert_eq!(e.get_error_level(), ErrorLevel::StreamError);
    assert_eq!(e.try_get_code(), None);
    assert!(Error::Closed.is_closed());
    assert_eq!(Error::Closed.get_error_level(), ErrorLevel::ConnectionError);
    let a = Error::application(0x109, "x", ErrorLevel::ConnectionError);
    assert_eq!(a.try_get_code(), Some(0x109));
}

#[test]
fn last_accepted_never_decreases() {
    let mut c = Connection::new();
    accept_id(&mut c, 4);
    c.on_request_end(4);
    assert_eq!(c.last_accepted_stream(), Some(4));
    c.shutdown(0);
    match c.poll_accept_request(StreamEvent::Accepted(8)) {
        Step::Reject { id: 8, end: true } => {}
        other => panic!("unexpected {:?}", other),
    }
    assert_eq!(c.last_accepted_stream(), Some(4));
}

#[test]
fn announced_settings_follow_config() {
    let mut conf = Config::new();
    conf.enable_webtransport(true);
    conf.enable_datagram(true);
    conf.max_webtransport_sessions(2);
    let s = Settings::from_config(&conf);
    assert_eq!(s.enable_webtransport, Some(1));
    assert_eq!(s.h3_datagram, Some(1));
    assert_eq!(s.enable_connect_protocol, Some(0));
    assert_eq!(s.webtransport_max_sessions, Some(2));
    assert_eq!(s.max_field_section_size, Some((1u64 << 62) - 1));
}
