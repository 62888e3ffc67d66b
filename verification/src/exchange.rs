//! Both sides of a run together: what follows when every frame that the
//! client sends reaches the server, and every reply the client.

use crate::client::{filler, ClientModel, ClientPhase, ClientRequest};
use crate::clock::time_between;
use crate::config::Mode;
use crate::frame::{encoded, lemma_decode_encoded, FRAME_DATA, FRAME_RESULT, FRAME_STOP};
use crate::server::{ServerModel, ServerPhase, ServerReply};
use crate::transport::TransportMetadata;
use vstd::prelude::*;

verus! {

/// A client and the server it talks to.
pub struct Exchange {
    pub client: ClientModel,
    pub server: ServerModel,
}

impl Exchange {
    /// Both sides before anything is sent, the server made at the time
    /// `server_start`.
    pub open spec fn initial(mode: Mode, iterations: nat, payload_size: nat, server_start: nat)
        -> Exchange {
        Exchange {
            client: ClientModel::initial(mode, iterations, payload_size),
            server: ServerModel::initial(mode, iterations, server_start),
        }
    }

    /// The exchange after the client's next frame. The frame reaches the
    /// server under the tags `tags`. An echo goes back to the client, and
    /// after the last echo the server finishes. After the stop frame the
    /// server finishes and a result frame with the payload `result` goes
    /// back. All of this happens at the time `now`.
    pub open spec fn step(self, tags: Option<TransportMetadata>, result: Seq<u8>, now: nat)
        -> Exchange {
        match self.client.action() {
            ClientRequest::Send { frame, .. } => {
                let client = self.client.after_action(now);
                let server = self.server.after_frame(frame, now);
                if self.server.fault(frame) is Some {
                    Exchange { client, server }
                } else {
                    match self.server.reply(frame, tags) {
                        ServerReply::Receive => Exchange { client, server },
                        ServerReply::Echo { frame: echo, .. } => Exchange {
                            client: client.after_frame(echo, now),
                            server: server.finished(now),
                        },
                        ServerReply::Respond { .. } => Exchange {
                            client: client.after_frame(encoded(FRAME_RESULT, result), now),
                            server: server.finished(now),
                        },
                    }
                }
            },
            _ => self,
        }
    }

    /// The exchange after as many frames of the client as `times` has
    /// entries, the frame `i` at the time `times[i]`.
    pub open spec fn after(
        self,
        tags: Option<TransportMetadata>,
        result: Seq<u8>,
        times: Seq<nat>,
    ) -> Exchange
        decreases times.len(),
    {
        if times.len() == 0 {
            self
        } else {
            self.after(tags, result, times.drop_last()).step(tags, result, times.last())
        }
    }

    /// Both sides run in the given mode with the given configuration, and
    /// both clocks started with the first of the frames sent at `times`.
    pub open spec fn configured(
        self,
        mode: Mode,
        iterations: nat,
        payload_size: nat,
        times: Seq<nat>,
    ) -> bool {
        &&& self.client.mode == mode
        &&& self.client.iterations == iterations
        &&& self.client.payload_size == payload_size
        &&& self.server.mode == mode
        &&& self.server.iterations == iterations
        &&& times.len() > 0 ==> self.client.start_time == times[0] && self.server.start_time
            == times[0]
    }

    /// A round-trip run whose rounds so far took place at `times`: the
    /// client has completed and the server has counted every one of them,
    /// and both are done once the rounds are as many as the run has.
    pub open spec fn rtt_progress(self, iterations: nat, payload_size: nat, times: Seq<nat>)
        -> bool {
        &&& self.configured(Mode::Rtt, iterations, payload_size, times)
        &&& self.client.completed == times.len()
        &&& self.server.messages == times.len()
        &&& self.server.bytes == times.len() * payload_size
        &&& if times.len() < iterations {
            &&& self.client.phase == ClientPhase::Sending
            &&& self.server.phase == if times.len() == 0 {
                ServerPhase::WaitFirstFrame
            } else {
                ServerPhase::EchoLoop
            }
        } else {
            &&& self.client.phase == ClientPhase::Done
            &&& self.client.elapsed == time_between(times[0], times.last())
            &&& self.server.phase == ServerPhase::Done
            &&& self.server.elapsed == time_between(times[0], times.last())
        }
    }

    /// A throughput run whose burst so far was sent at `times`: the server
    /// has counted every frame, and the stop frame is next once the frames
    /// are as many as the run has iterations.
    pub open spec fn burst_progress(self, iterations: nat, payload_size: nat, times: Seq<nat>)
        -> bool {
        &&& self.configured(Mode::Throughput, iterations, payload_size, times)
        &&& self.client.completed == times.len()
        &&& self.server.messages == times.len()
        &&& self.server.bytes == times.len() * payload_size
        &&& self.client.phase == if times.len() < iterations {
            ClientPhase::BurstSend
        } else {
            ClientPhase::SendStop
        }
        &&& self.server.phase == if times.len() == 0 {
            ServerPhase::WaitFirstFrame
        } else {
            ServerPhase::Accumulate
        }
    }
}

/// One round of a round-trip run: the server counts the frame and sends
/// it back as it came, under the tags it came with, and the client takes
/// the echo for the frame it sent.
pub proof fn lemma_rtt_round(
    x: Exchange,
    iterations: nat,
    payload_size: nat,
    times: Seq<nat>,
    tags: Option<TransportMetadata>,
    result: Seq<u8>,
    now: nat,
)
    requires
        payload_size <= u32::MAX,
        times.len() < iterations,
        x.rtt_progress(iterations, payload_size, times),
    ensures
        x.client.action() matches ClientRequest::Send { frame, .. } && x.server.reply(frame, tags)
            == (ServerReply::Echo { frame, metadata: tags, last: times.len() + 1 == iterations }),
        x.step(tags, result, now).rtt_progress(iterations, payload_size, times.push(now)),
{
    let k = times.len();
    lemma_decode_encoded(FRAME_DATA, filler(payload_size));
    assert((k + 1) * payload_size == k * payload_size + payload_size) by (nonlinear_arith);
}

/// A round-trip run from its start through the rounds at `times`.
pub proof fn lemma_rtt_rounds(
    iterations: nat,
    payload_size: nat,
    server_start: nat,
    tags: Option<TransportMetadata>,
    result: Seq<u8>,
    times: Seq<nat>,
)
    requires
        0 < iterations,
        payload_size <= u32::MAX,
        times.len() <= iterations,
    ensures
        Exchange::initial(Mode::Rtt, iterations, payload_size, server_start).after(
            tags,
            result,
            times,
        ).rtt_progress(iterations, payload_size, times),
    decreases times.len(),
{
    let start = Exchange::initial(Mode::Rtt, iterations, payload_size, server_start);
    if times.len() == 0 {
        assert(0 * payload_size == 0) by (nonlinear_arith);
    } else {
        let earlier = times.drop_last();
        lemma_rtt_rounds(iterations, payload_size, server_start, tags, result, earlier);
        lemma_rtt_round(
            start.after(tags, result, earlier),
            iterations,
            payload_size,
            earlier,
            tags,
            result,
            times.last(),
        );
        assert(earlier.push(times.last()) =~= times);
    }
}

/// A complete round-trip run: when the client has sent as many frames as
/// the run has rounds and every one has come back, both sides are done.
/// The server has counted every round once and every payload byte, and
/// each side has taken the time from the first frame to the last.
pub proof fn lemma_rtt_run(
    iterations: nat,
    payload_size: nat,
    server_start: nat,
    tags: Option<TransportMetadata>,
    result: Seq<u8>,
    times: Seq<nat>,
)
    requires
        0 < iterations,
        payload_size <= u32::MAX,
        times.len() == iterations,
    ensures
        ({
            let end = Exchange::initial(Mode::Rtt, iterations, payload_size, server_start).after(
                tags,
                result,
                times,
            );
            &&& end.client.phase == ClientPhase::Done
            &&& end.client.completed == iterations
            &&& end.client.elapsed == time_between(times[0], times.last())
            &&& end.server.phase == ServerPhase::Done
            &&& end.server.messages == iterations
            &&& end.server.bytes == iterations * payload_size
            &&& end.server.elapsed == time_between(times[0], times.last())
        }),
{
    lemma_rtt_rounds(iterations, payload_size, server_start, tags, result, times);
}

/// One frame of a burst: the server counts it and sends nothing.
pub proof fn lemma_burst_frame(
    x: Exchange,
    iterations: nat,
    payload_size: nat,
    times: Seq<nat>,
    tags: Option<TransportMetadata>,
    result: Seq<u8>,
    now: nat,
)
    requires
        payload_size <= u32::MAX,
        times.len() < iterations,
        x.burst_progress(iterations, payload_size, times),
    ensures
        x.client.action() matches ClientRequest::Send { frame, .. } && x.server.reply(frame, tags)
            == ServerReply::Receive,
        x.step(tags, result, now).burst_progress(iterations, payload_size, times.push(now)),
{
    let k = times.len();
    lemma_decode_encoded(FRAME_DATA, filler(payload_size));
    assert((k + 1) * payload_size == k * payload_size + payload_size) by (nonlinear_arith);
}

/// A burst from its start through the frames at `times`.
pub proof fn lemma_burst(
    iterations: nat,
    payload_size: nat,
    server_start: nat,
    tags: Option<TransportMetadata>,
    result: Seq<u8>,
    times: Seq<nat>,
)
    requires
        0 < iterations,
        payload_size <= u32::MAX,
        times.len() <= iterations,
    ensures
        Exchange::initial(Mode::Throughput, iterations, payload_size, server_start).after(
            tags,
            result,
            times,
        ).burst_progress(iterations, payload_size, times),
    decreases times.len(),
{
    let start = Exchange::initial(Mode::Throughput, iterations, payload_size, server_start);
    if times.len() == 0 {
        assert(0 * payload_size == 0) by (nonlinear_arith);
    } else {
        let earlier = times.drop_last();
        lemma_burst(iterations, payload_size, server_start, tags, result, earlier);
        lemma_burst_frame(
            start.after(tags, result, earlier),
            iterations,
            payload_size,
            earlier,
            tags,
            result,
            times.last(),
        );
        assert(earlier.push(times.last()) =~= times);
    }
}

/// A complete throughput run: when the burst and the stop frame are out
/// and the result is back, both sides are done. At the stop frame the
/// server has counted every frame of the burst once and every payload
/// byte, and the stop frame changes no counter; the result is owed under
/// the tags of the stop frame. Each side has taken the time from the
/// first frame to the stop frame.
pub proof fn lemma_throughput_run(
    iterations: nat,
    payload_size: nat,
    server_start: nat,
    tags: Option<TransportMetadata>,
    result: Seq<u8>,
    times: Seq<nat>,
)
    requires
        0 < iterations,
        payload_size <= u32::MAX,
        result.len() <= u32::MAX,
        times.len() == iterations + 1,
    ensures
        ({
            let start = Exchange::initial(Mode::Throughput, iterations, payload_size, server_start);
            let at_stop = start.after(tags, result, times.drop_last());
            let end = start.after(tags, result, times);
            &&& at_stop.server.messages == iterations
            &&& at_stop.server.bytes == iterations * payload_size
            &&& at_stop.client.action() == (ClientRequest::Send {
                frame: encoded(FRAME_STOP, Seq::empty()),
                metadata: TransportMetadata::initial(),
            })
            &&& at_stop.server.reply(encoded(FRAME_STOP, Seq::empty()), tags)
                == (ServerReply::Respond { metadata: tags })
            &&& end.client.phase == ClientPhase::Done
            &&& end.client.elapsed == time_between(times[0], times.last())
            &&& end.server.phase == ServerPhase::Done
            &&& end.server.messages == iterations
            &&& end.server.bytes == iterations * payload_size
            &&& end.server.elapsed == time_between(times[0], times.last())
        }),
{
    lemma_burst(iterations, payload_size, server_start, tags, result, times.drop_last());
    lemma_decode_encoded(FRAME_STOP, Seq::empty());
    lemma_decode_encoded(FRAME_RESULT, result);
}

} // verus!
