use sctp_perf::client::ClientReport;
use sctp_perf::config::{BenchmarkConfig, Mode};
use sctp_perf::frame::{decode_frame, FRAME_RESULT};
use sctp_perf::report::{bind_address, client_result_line, result_frame, server_done_line, server_ready_line};
use sctp_perf::server::RunCounters;

fn counters(messages: usize, bytes: usize) -> RunCounters {
    RunCounters { messages, bytes, start_time: 0, elapsed: 0 }
}

#[test]
fn result_frame_carries_the_counters_as_text() {
    let frame = result_frame(&counters(50, 6400), "0.012345");
    assert_eq!(decode_frame(&frame), Ok((FRAME_RESULT, &b"messages=50 bytes=6400 seconds=0.012345"[..])));
}

#[test]
fn result_frame_of_an_empty_run() {
    let frame = result_frame(&counters(0, 0), "0.000000");
    assert_eq!(frame[0], 3);
    assert_eq!(&frame[1..5], &[0, 0, 0, 35]);
    assert_eq!(&frame[5..], b"messages=0 bytes=0 seconds=0.000000");
}

#[test]
fn result_frame_takes_the_seconds_as_written() {
    let frame = result_frame(&counters(1, 2), "1,5 s · µ");
    assert_eq!(decode_frame(&frame), Ok((FRAME_RESULT, "messages=1 bytes=2 seconds=1,5 s · µ".as_bytes())));
}

#[test]
fn server_done_line_names_mode_and_counters() {
    assert_eq!(
        server_done_line(Mode::Rtt, &counters(10, 640), "0.001500"),
        "PERF_SERVER_DONE mode=rtt messages=10 bytes=640 seconds=0.001500"
    );
    assert_eq!(
        server_done_line(Mode::Throughput, &counters(50, 6400), "2.000000"),
        "PERF_SERVER_DONE mode=throughput messages=50 bytes=6400 seconds=2.000000"
    );
}

#[test]
fn server_ready_line_names_the_configuration() {
    let config = BenchmarkConfig::new(String::from("127.0.0.1"), 19100, Mode::Rtt, 200, 256).unwrap();
    assert_eq!(
        server_ready_line(&config),
        "PERF_SERVER_READY mode=rtt bind=127.0.0.1:19100 iterations=200 size=256"
    );
    let config = BenchmarkConfig::new(String::from("::1"), 0, Mode::Throughput, 1, 65536).unwrap();
    assert_eq!(
        server_ready_line(&config),
        "PERF_SERVER_READY mode=throughput bind=::1:0 iterations=1 size=65536"
    );
}

#[test]
fn bind_address_joins_host_and_port() {
    let config = BenchmarkConfig::new(String::from("0.0.0.0"), 65535, Mode::Rtt, 1, 1).unwrap();
    assert_eq!(bind_address(&config), "0.0.0.0:65535");
}

#[test]
fn client_result_line_in_rtt_mode_reports_no_throughput() {
    let report = ClientReport { mode: Mode::Rtt, iterations: 10, payload_size: 64, elapsed: 2_500_000 };
    assert_eq!(
        client_result_line(&report, "0.002500", "250.000"),
        "PERF_CLIENT_RESULT mode=rtt iterations=10 size=64 elapsed_s=0.002500 rtt_us_avg=250.000 throughput_mbps=0.000"
    );
}

#[test]
fn client_result_line_in_throughput_mode_reports_no_rtt() {
    let report =
        ClientReport { mode: Mode::Throughput, iterations: 50, payload_size: 128, elapsed: 1_000_000 };
    assert_eq!(
        client_result_line(&report, "0.001000", "51.200"),
        "PERF_CLIENT_RESULT mode=throughput iterations=50 size=128 elapsed_s=0.001000 rtt_us_avg=0.000 throughput_mbps=51.200"
    );
}
