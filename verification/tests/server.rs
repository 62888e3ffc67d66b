use sctp_perf::config::{BenchmarkConfig, Mode};
use sctp_perf::error::{ProtocolError, RunError};
use sctp_perf::frame::{encode_frame, FrameDecodeError, FRAME_DATA, FRAME_RESULT, FRAME_STOP};
use sctp_perf::server::{RunCounters, Server, ServerAction, ServerPhase};
use sctp_perf::transport::TransportMetadata;

fn server(mode: Mode, iterations: usize, now: u128) -> Server {
    let config = BenchmarkConfig::new(String::from("127.0.0.1"), 19100, mode, iterations, 64).unwrap();
    Server::new(&config, now)
}

fn tags(stream_id: u16) -> Option<TransportMetadata> {
    Some(TransportMetadata { stream_id, protocol_id: 0x5052_4631, association_id: 42 })
}

#[test]
fn server_starts_empty() {
    let s = server(Mode::Rtt, 3, 100);
    assert_eq!(s.phase(), ServerPhase::WaitFirstFrame);
    assert_eq!(s.counters(), RunCounters { messages: 0, bytes: 0, start_time: 100, elapsed: 0 });
    assert!(s.has_room(4096));
}

#[test]
fn rtt_echoes_payload_under_the_request_tags() {
    let mut s = server(Mode::Rtt, 3, 0);
    let request = encode_frame(FRAME_DATA, b"ping");
    let action = s.on_frame(&request, tags(7), 10).unwrap();
    assert_eq!(
        action,
        ServerAction::Echo { frame: encode_frame(FRAME_DATA, b"ping"), metadata: tags(7), last: false }
    );
    assert_eq!(s.phase(), ServerPhase::EchoLoop);
}

#[test]
fn rtt_echo_tags_follow_each_request() {
    let mut s = server(Mode::Rtt, 3, 0);
    let request = encode_frame(FRAME_DATA, b"a");
    for (i, metadata) in [tags(1), None, tags(9)].into_iter().enumerate() {
        match s.on_frame(&request, metadata, i as u128).unwrap() {
            ServerAction::Echo { metadata: echoed, .. } => assert_eq!(echoed, metadata),
            other => panic!("{:?}", other),
        }
    }
}

#[test]
fn rtt_counts_and_stops_after_the_last_round() {
    let mut s = server(Mode::Rtt, 2, 0);
    let first = s.on_frame(&encode_frame(FRAME_DATA, b"abc"), None, 50).unwrap();
    assert!(matches!(first, ServerAction::Echo { last: false, .. }));
    assert_eq!(s.counters(), RunCounters { messages: 1, bytes: 3, start_time: 50, elapsed: 0 });
    let second = s.on_frame(&encode_frame(FRAME_DATA, b"defgh"), None, 70).unwrap();
    assert!(matches!(second, ServerAction::Echo { last: true, .. }));
    assert_eq!(s.phase(), ServerPhase::Respond);
    let counters = s.finish(90).unwrap();
    assert_eq!(counters, RunCounters { messages: 2, bytes: 8, start_time: 50, elapsed: 40 });
    assert_eq!(s.phase(), ServerPhase::Done);
    assert_eq!(s.counters(), counters);
}

#[test]
fn rtt_single_round_is_first_and_last() {
    let mut s = server(Mode::Rtt, 1, 5);
    let action = s.on_frame(&encode_frame(FRAME_DATA, b"x"), tags(0), 8).unwrap();
    assert!(matches!(action, ServerAction::Echo { last: true, .. }));
    assert_eq!(s.finish(8).unwrap().elapsed, 0);
}

#[test]
fn rtt_does_not_hold_payload_to_the_configured_size() {
    let mut s = server(Mode::Rtt, 5, 0);
    let big = vec![0u8; 1000];
    let action = s.on_frame(&encode_frame(FRAME_DATA, &big), None, 1).unwrap();
    assert_eq!(action, ServerAction::Echo { frame: encode_frame(FRAME_DATA, &big), metadata: None, last: false });
    let action = s.on_frame(&encode_frame(FRAME_DATA, &[]), None, 2).unwrap();
    assert_eq!(action, ServerAction::Echo { frame: encode_frame(FRAME_DATA, &[]), metadata: None, last: false });
    assert_eq!(s.counters().bytes, 1000);
    assert_eq!(s.counters().messages, 2);
}

#[test]
fn rtt_stop_frame_is_a_protocol_error() {
    let mut s = server(Mode::Rtt, 3, 0);
    let r = s.on_frame(&encode_frame(FRAME_STOP, &[]), tags(1), 1);
    assert_eq!(r, Err(RunError::Protocol(ProtocolError::UnexpectedFrameKind(FRAME_STOP))));
    assert_eq!(s.phase(), ServerPhase::Failed);
    assert_eq!(s.finish(2), None);
    assert_eq!(s.phase(), ServerPhase::Failed);
}

#[test]
fn rtt_stop_frame_after_echoes_is_a_protocol_error() {
    let mut s = server(Mode::Rtt, 3, 0);
    s.on_frame(&encode_frame(FRAME_DATA, b"abc"), None, 1).unwrap();
    let r = s.on_frame(&encode_frame(FRAME_STOP, &[]), None, 2);
    assert_eq!(r, Err(RunError::Protocol(ProtocolError::UnexpectedFrameKind(2))));
    assert_eq!(s.phase(), ServerPhase::Failed);
    assert_eq!(s.finish(3), None);
    assert_ne!(s.phase(), ServerPhase::Done);
}

#[test]
fn finish_is_for_a_run_whose_last_frame_has_come() {
    let mut s = server(Mode::Rtt, 2, 0);
    assert_eq!(s.finish(1), None);
    assert_eq!(s.phase(), ServerPhase::WaitFirstFrame);
    s.on_frame(&encode_frame(FRAME_DATA, b"abc"), None, 2).unwrap();
    assert_eq!(s.finish(3), None);
    assert_eq!(s.phase(), ServerPhase::EchoLoop);
    s.on_frame(&encode_frame(FRAME_DATA, b"abc"), None, 4).unwrap();
    assert_eq!(s.finish(5), Some(RunCounters { messages: 2, bytes: 6, start_time: 2, elapsed: 3 }));
    assert_eq!(s.finish(9), None);
    assert_eq!(s.counters().elapsed, 3);
    assert_eq!(s.phase(), ServerPhase::Done);
}

#[test]
fn rtt_other_kinds_are_protocol_errors() {
    for kind in [0u8, 3, 4, 255] {
        let mut s = server(Mode::Rtt, 3, 0);
        let r = s.on_frame(&encode_frame(kind, b"abc"), None, 1);
        assert_eq!(r, Err(RunError::Protocol(ProtocolError::UnexpectedFrameKind(kind))));
        assert_eq!(s.phase(), ServerPhase::Failed);
    }
}

#[test]
fn peer_closing_is_unexpected_eof() {
    for mode in [Mode::Rtt, Mode::Throughput] {
        let mut s = server(mode, 3, 0);
        assert_eq!(s.on_frame(&[], None, 1), Err(RunError::UnexpectedEof));
        assert_eq!(s.phase(), ServerPhase::Failed);
    }
}

#[test]
fn peer_closing_mid_run_is_unexpected_eof() {
    let mut s = server(Mode::Throughput, 3, 0);
    s.on_frame(&encode_frame(FRAME_DATA, b"abc"), None, 1).unwrap();
    assert_eq!(s.on_frame(&[], None, 2), Err(RunError::UnexpectedEof));
    assert_eq!(s.phase(), ServerPhase::Failed);
}

#[test]
fn malformed_frames_are_decode_errors() {
    let mut s = server(Mode::Rtt, 3, 0);
    assert_eq!(s.on_frame(&[1, 0, 0], None, 1), Err(RunError::Decode(FrameDecodeError::TooShort)));
    assert_eq!(s.phase(), ServerPhase::Failed);
    let mut s = server(Mode::Throughput, 3, 0);
    assert_eq!(
        s.on_frame(&[1, 0, 0, 0, 10, 1, 2, 3], None, 1),
        Err(RunError::Decode(FrameDecodeError::LengthMismatch))
    );
    assert_eq!(s.phase(), ServerPhase::Failed);
}

#[test]
fn throughput_counts_silently_until_stop() {
    let mut s = server(Mode::Throughput, 2, 0);
    for i in 0..5u128 {
        let action = s.on_frame(&encode_frame(FRAME_DATA, &[0u8; 128]), tags(3), 100 + i).unwrap();
        assert_eq!(action, ServerAction::Receive);
        assert_eq!(s.phase(), ServerPhase::Accumulate);
    }
    assert_eq!(s.counters(), RunCounters { messages: 5, bytes: 640, start_time: 100, elapsed: 0 });
    let action = s.on_frame(&encode_frame(FRAME_STOP, &[]), tags(4), 200).unwrap();
    assert_eq!(action, ServerAction::Respond { metadata: tags(4) });
    assert_eq!(s.phase(), ServerPhase::Respond);
    assert_eq!(s.counters(), RunCounters { messages: 5, bytes: 640, start_time: 100, elapsed: 0 });
    assert_eq!(s.finish(350), Some(RunCounters { messages: 5, bytes: 640, start_time: 100, elapsed: 250 }));
    assert_eq!(s.phase(), ServerPhase::Done);
}

#[test]
fn throughput_stop_first_keeps_the_initial_clock() {
    let mut s = server(Mode::Throughput, 2, 30);
    let action = s.on_frame(&encode_frame(FRAME_STOP, &[]), None, 40).unwrap();
    assert_eq!(action, ServerAction::Respond { metadata: None });
    assert_eq!(s.finish(45), Some(RunCounters { messages: 0, bytes: 0, start_time: 30, elapsed: 15 }));
}

#[test]
fn throughput_stop_payload_is_not_counted() {
    let mut s = server(Mode::Throughput, 2, 0);
    s.on_frame(&encode_frame(FRAME_DATA, b"abcd"), None, 1).unwrap();
    let action = s.on_frame(&encode_frame(FRAME_STOP, b"ignored"), None, 2).unwrap();
    assert_eq!(action, ServerAction::Respond { metadata: None });
    assert_eq!(s.counters().messages, 1);
    assert_eq!(s.counters().bytes, 4);
}

#[test]
fn throughput_other_kinds_are_protocol_errors() {
    for kind in [0u8, FRAME_RESULT, 9] {
        let mut s = server(Mode::Throughput, 2, 0);
        s.on_frame(&encode_frame(FRAME_DATA, b"abcd"), None, 1).unwrap();
        let r = s.on_frame(&encode_frame(kind, &[]), None, 2);
        assert_eq!(r, Err(RunError::Protocol(ProtocolError::UnexpectedFrameKind(kind))));
        assert_eq!(s.phase(), ServerPhase::Failed);
    }
}

#[test]
fn clock_starts_with_the_first_data_frame_only() {
    let mut s = server(Mode::Rtt, 3, 10);
    s.on_frame(&encode_frame(FRAME_DATA, b"a"), None, 20).unwrap();
    assert_eq!(s.counters().start_time, 20);
    s.on_frame(&encode_frame(FRAME_DATA, b"a"), None, 30).unwrap();
    assert_eq!(s.counters().start_time, 20);
}

#[test]
fn clock_that_went_back_gives_no_time() {
    let mut s = server(Mode::Rtt, 1, 10);
    s.on_frame(&encode_frame(FRAME_DATA, b"a"), None, 20).unwrap();
    assert_eq!(s.finish(5).unwrap().elapsed, 0);
}

#[test]
fn room_is_judged_by_both_counters() {
    let mut s = server(Mode::Throughput, 1, 0);
    assert!(s.has_room(usize::MAX));
    s.on_frame(&encode_frame(FRAME_DATA, b"abc"), None, 1).unwrap();
    assert!(s.has_room(usize::MAX - 3));
    assert!(!s.has_room(usize::MAX - 2));
}
