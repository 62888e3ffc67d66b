//! The text in which a run is reported: the payload of the result frame
//! and the summary lines of both sides.
//!
//! Whole numbers are written here. Times and rates are fractions; the
//! caller writes them, and they are taken as text.

use crate::client::ClientReport;
use crate::config::{BenchmarkConfig, ConfigModel, Mode};
use crate::decimal::{append_decimal, decimal_digits};
use crate::frame::{encode_frame, encoded, FRAME_RESULT};
use crate::server::RunCounters;
use vstd::prelude::*;
use vstd::string::*;
use vstd::utf8::encode_utf8;

verus! {

/// The counters of a run as text: message count, byte count and the
/// elapsed seconds as the caller wrote them.
pub open spec fn counters_text(messages: nat, bytes: nat, seconds: Seq<char>) -> Seq<char> {
    "messages="@ + decimal_digits(messages) + " bytes="@ + decimal_digits(bytes) + " seconds="@
        + seconds
}

/// The address that a server binds to: host, colon, port.
pub open spec fn bind_text(host: Seq<char>, port: u16) -> Seq<char> {
    host + ":"@ + decimal_digits(port as nat)
}

/// The line by which a server says that it is ready.
pub open spec fn server_ready_text(config: ConfigModel) -> Seq<char> {
    let bind = bind_text(config.host, config.port);
    let iterations = decimal_digits(config.iterations);
    let size = decimal_digits(config.payload_size);
    "PERF_SERVER_READY mode="@ + config.mode.spec_name() + " bind="@ + bind + " iterations="@
        + iterations + " size="@ + size
}

/// The line by which a server reports a finished run.
pub open spec fn server_done_text(
    mode: Mode,
    messages: nat,
    bytes: nat,
    seconds: Seq<char>,
) -> Seq<char> {
    "PERF_SERVER_DONE mode="@ + mode.spec_name() + " "@ + counters_text(messages, bytes, seconds)
}

/// The line by which a client reports a complete run. `metric` is the
/// average round-trip time in microseconds in round-trip mode, the
/// throughput in megabits per second in throughput mode; the other of the
/// two is reported as zero.
pub open spec fn client_result_text(
    mode: Mode,
    iterations: nat,
    payload_size: nat,
    elapsed_seconds: Seq<char>,
    metric: Seq<char>,
) -> Seq<char> {
    let rtt = if mode == Mode::Rtt {
        metric
    } else {
        "0.000"@
    };
    let throughput = if mode == Mode::Throughput {
        metric
    } else {
        "0.000"@
    };
    "PERF_CLIENT_RESULT mode="@ + mode.spec_name() + " iterations="@ + decimal_digits(iterations)
        + " size="@ + decimal_digits(payload_size) + " elapsed_s="@ + elapsed_seconds
        + " rtt_us_avg="@ + rtt + " throughput_mbps="@ + throughput
}

/// Appends the counters of a run to a text.
fn append_counters(text: &mut String, counters: &RunCounters, seconds: &str)
    ensures
        final(text)@ == old(text)@ + counters_text(
            counters.messages as nat,
            counters.bytes as nat,
            seconds@,
        ),
{
    text.append("messages=");
    append_decimal(text, counters.messages);
    text.append(" bytes=");
    append_decimal(text, counters.bytes);
    text.append(" seconds=");
    text.append(seconds);
    assert(text@ =~= old(text)@ + counters_text(
        counters.messages as nat,
        counters.bytes as nat,
        seconds@,
    ));
}

/// The result of a throughput run as the server sends it: one result
/// frame whose payload is the text of the counters.
pub fn result_frame(counters: &RunCounters, seconds: &str) -> (r: Vec<u8>)
    ensures
        r@ == encoded(
            FRAME_RESULT,
            encode_utf8(counters_text(counters.messages as nat, counters.bytes as nat, seconds@)),
        ),
{
    let mut text = String::new();
    append_counters(&mut text, counters, seconds);
    assert(text@ =~= counters_text(counters.messages as nat, counters.bytes as nat, seconds@));
    encode_frame(FRAME_RESULT, text.as_str().as_bytes())
}

/// The address that a server binds to.
pub fn bind_address(config: &BenchmarkConfig) -> (r: String)
    ensures
        r@ == bind_text(config@.host, config@.port),
{
    let mut text = config.host().to_owned();
    text.append(":");
    append_decimal(&mut text, config.port() as usize);
    text
}

/// The line by which a server says that it is ready.
pub fn server_ready_line(config: &BenchmarkConfig) -> (r: String)
    ensures
        r@ == server_ready_text(config@),
{
    let mut text = "PERF_SERVER_READY mode=".to_owned();
    text.append(config.mode().name());
    text.append(" bind=");
    text.append(bind_address(config).as_str());
    text.append(" iterations=");
    append_decimal(&mut text, config.iterations());
    text.append(" size=");
    append_decimal(&mut text, config.payload_size());
    text
}

/// The line by which a server reports a finished run.
pub fn server_done_line(mode: Mode, counters: &RunCounters, seconds: &str) -> (r: String)
    ensures
        r@ == server_done_text(mode, counters.messages as nat, counters.bytes as nat, seconds@),
{
    let mut text = "PERF_SERVER_DONE mode=".to_owned();
    text.append(mode.name());
    text.append(" ");
    append_counters(&mut text, counters, seconds);
    text
}

/// The line by which a client reports a complete run.
pub fn client_result_line(report: &ClientReport, elapsed_seconds: &str, metric: &str) -> (r: String)
    ensures
        r@ == client_result_text(
            report.mode,
            report.iterations as nat,
            report.payload_size as nat,
            elapsed_seconds@,
            metric@,
        ),
{
    let mut text = "PERF_CLIENT_RESULT mode=".to_owned();
    text.append(report.mode.name());
    text.append(" iterations=");
    append_decimal(&mut text, report.iterations);
    text.append(" size=");
    append_decimal(&mut text, report.payload_size);
    text.append(" elapsed_s=");
    text.append(elapsed_seconds);
    text.append(" rtt_us_avg=");
    match report.mode {
        Mode::Rtt => {
            text.append(metric);
            text.append(" throughput_mbps=");
            text.append("0.000");
        },
        Mode::Throughput => {
            text.append("0.000");
            text.append(" throughput_mbps=");
            text.append(metric);
        },
    }
    text
}

} // verus!
