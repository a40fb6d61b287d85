use h3::connection::Connection;
use h3::error::{Error, ErrorLevel};
use h3::frame::Frame;
use h3::request::{RequestEnd, RequestStream};
use h3::settings::Settings;
use h3::webtransport::{
    is_webtransport_request, Race, RaceOutcome, Readiness, RecvStream, Route, SendStream,
    WebTransportSession,
};

#[test]
fn dropped_handle_notifies_once() {
    let mut e = RequestEnd::new(4);
    assert_eq!(e.release(), Some(4));
    assert!(e.notified());
}

#[test]
fn split_handles_notify_once_after_both() {
    let mut e = RequestEnd::new(8);
    e.share();
    assert_eq!(e.release(), None);
    assert!(!e.notified());
    assert_eq!(e.release(), Some(8));
}

#[test]
fn response_head_too_big() {
    let mut s = RequestStream::new(0, 100, false);
    match s.send_response(vec![1, 2], 101) {
        Err(Error::HeaderTooBig { actual_size: 101, max_size: 100 }) => {}
        other => panic!("unexpected {:?}", other),
    }
    assert!(!s.response_sent);
    assert_eq!(s.send_response(vec![1, 2], 100).unwrap(), vec![0x01, 0x02, 1, 2]);
    assert!(s.response_sent);
}

#[test]
fn body_chunk_is_a_data_frame() {
    let mut s = RequestStream::new(0, 100, false);
    s.send_response(vec![9], 1).unwrap();
    assert_eq!(s.send_data(vec![5, 6, 7]), vec![0x00, 0x03, 5, 6, 7]);
}

#[test]
fn grease_frame_once_per_stream() {
    let mut s = RequestStream::new(0, 100, true);
    s.send_response(vec![], 0).unwrap();
    assert_eq!(s.send_data(vec![1]), vec![0x21, 0x00, 0x00, 0x01, 1]);
    assert_eq!(s.send_data(vec![1]), vec![0x00, 0x01, 1]);
}

#[test]
fn trailers_end_stream_and_stop_overrides() {
    let mut s = RequestStream::new(0, 100, false);
    assert_eq!(s.send_trailers(vec![3], 10).unwrap(), vec![0x01, 0x01, 3]);
    assert!(s.finished);
    s.stop_stream(0x10c);
    assert_eq!(s.reset_code, Some(0x10c));
    assert!(s.is_done());
    let mut t = RequestStream::new(4, 100, false);
    assert!(t.send_trailers(vec![3], 200).is_err());
    assert!(!t.is_done());
    t.finish();
    t.stop_sending(0x100);
    assert_eq!(t.stop_sending_code, Some(0x100));
}

#[test]
fn split_partitions_directions_and_shares_completion() {
    let mut end = RequestEnd::new(4);
    let (send, recv) = RequestStream::new(4, 100, true).split(&mut end);
    assert!(send.sends && !send.receives && send.grease);
    assert!(recv.receives && !recv.sends && !recv.grease);
    assert_eq!(send.stream_id, 4);
    assert_eq!(recv.stream_id, 4);
    assert_eq!(end.release(), None);
    assert!(!end.notified());
    assert_eq!(end.release(), Some(4));
}

fn conn_with_peer(webtransport: Option<u64>, datagram: Option<u64>) -> Connection {
    let mut c = Connection::new();
    let mut s = Settings::empty();
    s.enable_webtransport = webtransport;
    s.h3_datagram = datagram;
    c.poll_control(&Frame::Settings(s)).unwrap();
    c
}

fn settings_error(r: Result<WebTransportSession, Error>) -> bool {
    matches!(
        r,
        Err(Error::Application { code: 0x109, level: ErrorLevel::ConnectionError, .. })
    )
}

#[test]
fn webtransport_requires_peer_support() {
    assert!(settings_error(WebTransportSession::new(conn_with_peer(None, Some(1)), 0)));
    assert!(settings_error(WebTransportSession::new(conn_with_peer(Some(1), None), 0)));
    assert!(settings_error(WebTransportSession::new(conn_with_peer(Some(0), Some(1)), 0)));
    assert!(settings_error(WebTransportSession::new(Connection::new(), 0)));
}

#[test]
fn webtransport_on_closed_connection_fails() {
    let mut c = conn_with_peer(Some(1), Some(1));
    assert!(c.poll_control(&Frame::Data(vec![])).is_err());
    assert!(matches!(WebTransportSession::new(c, 0), Err(Error::Closed)));
}

#[test]
fn webtransport_ignores_local_configuration() {
    let s = WebTransportSession::new(conn_with_peer(Some(1), Some(1)), 4).unwrap();
    assert_eq!(s.session_id(), 4);
    assert!(!s.connection().config().enable_webtransport);
}

#[test]
fn datagram_routing() {
    let s = WebTransportSession::new(conn_with_peer(Some(1), Some(1)), 4).unwrap();
    assert_eq!(s.route_datagram(&[0x04, 0xaa]), Route::Session(1));
    assert_eq!(s.route_datagram(&[0x08, 0xaa]), Route::Foreign);
    assert_eq!(s.route_datagram(&[]), Route::Incomplete);
    assert_eq!(s.route_uni(&[0x40, 0x04]), Route::Session(2));
}

#[test]
fn bidi_routing() {
    let s = WebTransportSession::new(conn_with_peer(Some(1), Some(1)), 4).unwrap();
    assert_eq!(s.route_bidi(&[0x40, 0x41, 0x04, 0x99]), Route::Session(3));
    assert_eq!(s.route_bidi(&[0x40, 0x41, 0x08]), Route::Foreign);
    assert_eq!(s.route_bidi(&[0x01, 0x05]), Route::Request);
    assert_eq!(s.route_bidi(&[0x40, 0x41]), Route::Incomplete);
}

#[test]
fn race_is_round_robin() {
    let mut r = Race::new();
    let all = [Readiness::Ready; 3];
    assert_eq!(r.poll(all, false), RaceOutcome::Pick(0));
    assert_eq!(r.poll(all, false), RaceOutcome::Pick(1));
    assert_eq!(r.poll(all, false), RaceOutcome::Pick(2));
    assert_eq!(r.poll(all, false), RaceOutcome::Pick(0));
    let only_bidi = [Readiness::Waiting, Readiness::Waiting, Readiness::Ready];
    assert_eq!(r.poll(only_bidi, false), RaceOutcome::Pick(2));
}

#[test]
fn race_ends_when_everything_is_exhausted() {
    let mut r = Race::new();
    let gone = [Readiness::Exhausted; 3];
    assert_eq!(r.poll(gone, false), RaceOutcome::Wait);
    assert_eq!(r.poll(gone, true), RaceOutcome::Done);
    let some = [Readiness::Exhausted, Readiness::Waiting, Readiness::Exhausted];
    assert_eq!(r.poll(some, true), RaceOutcome::Wait);
}

#[test]
fn webtransport_stream_handles() {
    let mut w = SendStream::new(5, 4);
    assert_eq!(w.write(10, 4), 6);
    assert_eq!(w.write(6, 6), 0);
    assert_eq!(w.written, 10);
    w.finish();
    w.reset(1);
    assert_eq!(w.send_id(), 5);
    assert_eq!(w.reset_code, Some(1));
    let mut r = RecvStream::new(7, 4);
    r.stop_sending(2);
    assert_eq!(r.recv_id(), 7);
    assert_eq!(r.stop_sending_code, Some(2));
}

#[test]
fn webtransport_request_detection() {
    assert!(is_webtransport_request("CONNECT", Some("webtransport")));
    assert!(!is_webtransport_request("CONNECT", Some("websocket")));
    assert!(!is_webtransport_request("CONNECT", None));
    assert!(!is_webtransport_request("GET", Some("webtransport")));
}

#[test]
fn datagram_framing_round_trip() {
    let s = WebTransportSession::new(conn_with_peer(Some(1), Some(1)), 100).unwrap();
    let d = s.encode_datagram(&[7, 8]);
    assert_eq!(d, vec![0x40, 0x64, 7, 8]);
    assert_eq!(s.route_datagram(&d), Route::Session(2));
}
