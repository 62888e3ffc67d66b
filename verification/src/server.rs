//! The server's side of a run: it reacts to one frame at a time, echoing
//! in round-trip mode and counting in throughput mode.
//!
//! The caller accepts the connection, receives, hands each receive to
//! [`Server::on_frame`] together with the tags the transport gave it and
//! the time, and does what the returned action says.

use crate::clock::{elapsed_between, time_between};
use crate::config::{BenchmarkConfig, Mode};
use crate::error::{ProtocolError, RunError};
use crate::frame::{
    decoded, encode_frame, encoded, lemma_encode_decoded, FRAME_DATA, FRAME_STOP, HEADER_LEN,
};
use crate::receive::{receive_frame, received_frame};
use crate::transport::TransportMetadata;
use vstd::prelude::*;

verus! {

/// Where a server stands in its run.
#[derive(Clone, Copy, Debug, PartialEq, Eq, Structural)]
pub enum ServerPhase {
    /// Nothing has been received yet.
    WaitFirstFrame,
    /// Round-trip mode: frames have been echoed, more are to come.
    EchoLoop,
    /// Throughput mode: frames have been counted, the burst goes on.
    Accumulate,
    /// The last frame of the run has been received; the run is to be
    /// finished and reported.
    Respond,
    /// The run is finished and its time taken.
    Done,
    /// The run was given up.
    Failed,
}

/// A server's state as plain values. Times are in nanoseconds on the
/// caller's clock.
pub struct ServerModel {
    pub mode: Mode,
    pub iterations: nat,
    pub phase: ServerPhase,
    pub messages: nat,
    pub bytes: nat,
    pub start_time: nat,
    pub elapsed: nat,
}

/// What a server asks its caller to do, as plain values.
pub enum ServerReply {
    Receive,
    Echo { frame: Seq<u8>, metadata: Option<TransportMetadata>, last: bool },
    Respond { metadata: Option<TransportMetadata> },
}

/// What a server asks its caller to do after a frame.
#[derive(Debug, PartialEq, Eq)]
pub enum ServerAction {
    /// Nothing is to be sent: receive the next frame.
    Receive,
    /// Send `frame` with the tags `metadata`. Then, if `last`, finish the
    /// run; if not, receive the next frame.
    Echo { frame: Vec<u8>, metadata: Option<TransportMetadata>, last: bool },
    /// The burst is over: finish the run and send its result with the tags
    /// `metadata`.
    Respond { metadata: Option<TransportMetadata> },
}

impl View for ServerAction {
    type V = ServerReply;

    open spec fn view(&self) -> ServerReply {
        match *self {
            ServerAction::Receive => ServerReply::Receive,
            ServerAction::Echo { frame, metadata, last } => ServerReply::Echo {
                frame: frame@,
                metadata,
                last,
            },
            ServerAction::Respond { metadata } => ServerReply::Respond { metadata },
        }
    }
}

/// The counters of a run. Times are in nanoseconds on the caller's clock;
/// `elapsed` is 0 until the run is finished.
#[derive(Clone, Copy, Debug, PartialEq, Eq, Structural)]
pub struct RunCounters {
    pub messages: usize,
    pub bytes: usize,
    pub start_time: u128,
    pub elapsed: u128,
}

impl ServerModel {
    /// A server that has received nothing. Its clock starts at `now` and
    /// starts again with the first data frame.
    pub open spec fn initial(mode: Mode, iterations: nat, now: nat) -> ServerModel {
        ServerModel {
            mode,
            iterations,
            phase: ServerPhase::WaitFirstFrame,
            messages: 0,
            bytes: 0,
            start_time: now,
            elapsed: 0,
        }
    }

    /// The server expects a frame.
    pub open spec fn receiving(self) -> bool {
        self.phase == ServerPhase::WaitFirstFrame || self.phase == ServerPhase::EchoLoop
            || self.phase == ServerPhase::Accumulate
    }

    /// What holds of every server's state: in round-trip mode it has echoed
    /// fewer frames than the run has rounds while it expects more, and
    /// exactly that many once it does not.
    pub open spec fn wf(self) -> bool {
        &&& self.iterations > 0
        &&& match self.phase {
            ServerPhase::WaitFirstFrame => self.messages == 0 && self.bytes == 0,
            ServerPhase::EchoLoop => self.mode == Mode::Rtt && 0 < self.messages < self.iterations,
            ServerPhase::Accumulate => self.mode == Mode::Throughput && self.messages > 0,
            ServerPhase::Respond | ServerPhase::Done => self.mode == Mode::Rtt ==> self.messages
                == self.iterations,
            ServerPhase::Failed => true,
        }
    }

    /// Why the run ends with what was received, if it does: the peer is
    /// gone, the bytes are no frame, or the frame is of a kind that the
    /// mode does not allow. Round-trip mode allows data frames only,
    /// throughput mode data frames and the stop frame. The length of an
    /// echoed payload is not held against the configured payload size.
    pub open spec fn fault(self, received: Seq<u8>) -> Option<RunError> {
        match received_frame(received) {
            Err(e) => Some(e),
            Ok((kind, _)) => if kind == FRAME_DATA || (self.mode == Mode::Throughput && kind
                == FRAME_STOP) {
                None
            } else {
                Some(RunError::Protocol(ProtocolError::UnexpectedFrameKind(kind)))
            },
        }
    }

    /// The counters have room for what was received.
    pub open spec fn can_count(self, received: Seq<u8>) -> bool {
        received_frame(received) matches Ok((kind, payload)) ==> (kind == FRAME_DATA ==> {
            &&& self.bytes + payload.len() <= usize::MAX
            &&& self.mode == Mode::Throughput ==> self.messages < usize::MAX
        })
    }

    /// The state after a receive at time `now`. A fault ends the run. A data
    /// frame is counted, and the first one starts the clock; in round-trip
    /// mode the frame that completes the rounds is the last. The stop frame
    /// ends the burst.
    pub open spec fn after_frame(self, received: Seq<u8>, now: nat) -> ServerModel {
        if !self.receiving() {
            self
        } else if self.fault(received) is Some {
            ServerModel { phase: ServerPhase::Failed, ..self }
        } else if received_frame(received)->Ok_0.0 == FRAME_DATA {
            ServerModel {
                phase: match self.mode {
                    Mode::Rtt => if self.messages + 1 >= self.iterations {
                        ServerPhase::Respond
                    } else {
                        ServerPhase::EchoLoop
                    },
                    Mode::Throughput => ServerPhase::Accumulate,
                },
                messages: self.messages + 1,
                bytes: self.bytes + received_frame(received)->Ok_0.1.len(),
                start_time: if self.phase == ServerPhase::WaitFirstFrame {
                    now
                } else {
                    self.start_time
                },
                ..self
            }
        } else {
            ServerModel { phase: ServerPhase::Respond, ..self }
        }
    }

    /// What the caller is to do after a receive without fault. In
    /// round-trip mode every data frame is echoed: a data frame with the
    /// same payload goes back under the very tags that the request came
    /// with. In throughput mode a data frame is answered by nothing, the
    /// stop frame by the result, under the tags of the stop frame.
    pub open spec fn reply(self, received: Seq<u8>, metadata: Option<TransportMetadata>)
        -> ServerReply {
        if received_frame(received)->Ok_0.0 == FRAME_DATA {
            match self.mode {
                Mode::Rtt => ServerReply::Echo {
                    frame: encoded(FRAME_DATA, received_frame(received)->Ok_0.1),
                    metadata,
                    last: self.messages + 1 >= self.iterations,
                },
                Mode::Throughput => ServerReply::Receive,
            }
        } else {
            ServerReply::Respond { metadata }
        }
    }

    /// The state after the run is finished at time `now`: the time since
    /// the clock's start is taken.
    pub open spec fn finished(self, now: nat) -> ServerModel {
        if self.phase == ServerPhase::Respond {
            ServerModel {
                phase: ServerPhase::Done,
                elapsed: time_between(self.start_time, now),
                ..self
            }
        } else {
            self
        }
    }
}

/// What can happen to a server: a receive, or the end of its run.
pub enum ServerEvent {
    Frame { received: Seq<u8>, now: nat },
    Finish { now: nat },
}

impl ServerModel {
    /// The state after one event.
    pub open spec fn after_event(self, event: ServerEvent) -> ServerModel {
        match event {
            ServerEvent::Frame { received, now } => self.after_frame(received, now),
            ServerEvent::Finish { now } => self.finished(now),
        }
    }

    /// The state after a series of events, the first of them first.
    pub open spec fn after_events(self, events: Seq<ServerEvent>) -> ServerModel
        decreases events.len(),
    {
        if events.len() == 0 {
            self
        } else {
            self.after_events(events.drop_last()).after_event(events.last())
        }
    }
}

/// A well-formed state stays well-formed, whatever is received and
/// whenever the run is finished.
pub proof fn lemma_server_stays_wf(s: ServerModel, event: ServerEvent)
    requires
        s.wf(),
    ensures
        s.after_event(event).wf(),
{
}

/// A server in round-trip mode takes data frames only: a frame of any other
/// kind, the stop frame among them, ends the run with a protocol error
/// that names the kind.
pub proof fn lemma_rtt_takes_data_only(s: ServerModel, received: Seq<u8>, now: nat)
    requires
        s.mode == Mode::Rtt,
        s.receiving(),
        received_frame(received) is Ok,
        received_frame(received)->Ok_0.0 != FRAME_DATA,
    ensures
        s.fault(received) == Some(
            RunError::Protocol(
                ProtocolError::UnexpectedFrameKind(received_frame(received)->Ok_0.0),
            ),
        ),
        s.after_frame(received, now).phase == ServerPhase::Failed,
{
}

/// A run that was given up stays given up: whatever happens after, it is
/// never finished, so that no counters are ever reported for it.
pub proof fn lemma_failed_is_final(s: ServerModel, events: Seq<ServerEvent>)
    requires
        s.phase == ServerPhase::Failed,
    ensures
        s.after_events(events) == s,
        s.after_events(events).phase != ServerPhase::Done,
    decreases events.len(),
{
    if events.len() > 0 {
        lemma_failed_is_final(s, events.drop_last());
    }
}

/// Only a finished run is done: a server reaches `Done` by no event but the
/// end of a run whose last frame it had received.
pub proof fn lemma_done_by_finish_only(s: ServerModel, event: ServerEvent)
    requires
        s.phase != ServerPhase::Done,
        s.after_event(event).phase == ServerPhase::Done,
    ensures
        s.phase == ServerPhase::Respond,
        event is Finish,
{
}

/// Session affinity: in round-trip mode the reply to a data frame carries
/// the tags that the frame came with, whatever they are, and is, byte for
/// byte, the frame that was received.
pub proof fn lemma_echo_keeps_tags(
    s: ServerModel,
    received: Seq<u8>,
    metadata: Option<TransportMetadata>,
)
    requires
        s.mode == Mode::Rtt,
        s.fault(received) is None,
    ensures
        s.reply(received, metadata) matches ServerReply::Echo { frame, metadata: tags, .. }
            && tags == metadata && frame == received,
{
    lemma_encode_decoded(received);
}

/// Every data frame without fault counts once, with the length of its
/// payload, in either mode; nothing else changes the counters.
pub proof fn lemma_counts(s: ServerModel, received: Seq<u8>, now: nat)
    requires
        s.receiving(),
    ensures
        ({
            let next = s.after_frame(received, now);
            if s.fault(received) is None && decoded(received)->Ok_0.0 == FRAME_DATA {
                next.messages == s.messages + 1 && next.bytes == s.bytes + received.len()
                    - HEADER_LEN
            } else {
                next.messages == s.messages && next.bytes == s.bytes
            }
        }),
{
    if s.fault(received) is None {
        lemma_encode_decoded(received);
    }
}

/// The server's side of one run.
#[derive(Debug)]
pub struct Server {
    mode: Mode,
    iterations: usize,
    phase: ServerPhase,
    counters: RunCounters,
}

impl View for Server {
    type V = ServerModel;

    closed spec fn view(&self) -> ServerModel {
        ServerModel {
            mode: self.mode,
            iterations: self.iterations as nat,
            phase: self.phase,
            messages: self.counters.messages as nat,
            bytes: self.counters.bytes as nat,
            start_time: self.counters.start_time as nat,
            elapsed: self.counters.elapsed as nat,
        }
    }
}

impl Server {
    #[verifier::type_invariant]
    spec fn inv(&self) -> bool {
        self@.wf()
    }

    /// A server for the given configuration that has received nothing, at
    /// time `now`.
    pub fn new(config: &BenchmarkConfig, now: u128) -> (r: Server)
        ensures
            r@ == ServerModel::initial(config@.mode, config@.iterations, now as nat),
            r@.wf(),
    {
        Server {
            mode: config.mode(),
            iterations: config.iterations(),
            phase: ServerPhase::WaitFirstFrame,
            counters: RunCounters { messages: 0, bytes: 0, start_time: now, elapsed: 0 },
        }
    }

    /// What the run measures.
    pub fn mode(&self) -> (r: Mode)
        ensures
            r == self@.mode,
    {
        self.mode
    }

    /// Where the server stands.
    pub fn phase(&self) -> (r: ServerPhase)
        ensures
            r == self@.phase,
            self@.wf(),
    {
        proof {
            use_type_invariant(self);
        }
        self.phase
    }

    /// The counters as they stand.
    pub fn counters(&self) -> (r: RunCounters)
        ensures
            r.messages == self@.messages,
            r.bytes == self@.bytes,
            r.start_time == self@.start_time,
            r.elapsed == self@.elapsed,
    {
        self.counters
    }

    /// Whether the counters have room for one more receive of `len` bytes,
    /// whatever it holds.
    pub fn has_room(&self, len: usize) -> (r: bool)
        ensures
            r == (self@.messages < usize::MAX && self@.bytes + len <= usize::MAX),
            r ==> forall|received: Seq<u8>|
                received.len() == len ==> #[trigger] self@.can_count(received),
    {
        self.counters.messages < usize::MAX && self.counters.bytes <= usize::MAX - len
    }

    /// Takes what one receive yielded at time `now`, with the tags that the
    /// transport gave it, and says what to do next. An error ends the run,
    /// and nothing else does. In round-trip mode the answer to a frame is
    /// its echo and nothing else: the frame as it was received, under the
    /// tags it came with; a frame of another kind than data is a protocol
    /// error there.
    ///
    /// The server must expect a frame, and the counters must have room for
    /// it: a run in which they would pass the machine word is outside of
    /// what a server can count.
    pub fn on_frame(
        &mut self,
        received: &[u8],
        metadata: Option<TransportMetadata>,
        now: u128,
    ) -> (r: Result<ServerAction, RunError>)
        requires
            old(self)@.receiving(),
            old(self)@.can_count(received@),
        ensures
            final(self)@ == old(self)@.after_frame(received@, now as nat),
            final(self)@.wf(),
            match r {
                Ok(action) => old(self)@.fault(received@) is None && action@ == old(self)@.reply(
                    received@,
                    metadata,
                ),
                Err(e) => old(self)@.fault(received@) == Some(e),
            },
            r is Err <==> final(self)@.phase == ServerPhase::Failed,
            old(self)@.mode == Mode::Rtt ==> match r {
                Ok(ServerAction::Echo { frame, metadata: tags, .. }) => tags == metadata && frame@
                    == received@,
                Ok(_) => false,
                Err(e) => received_frame(received@) matches Ok((kind, _)) ==> kind != FRAME_DATA
                    && e == RunError::Protocol(ProtocolError::UnexpectedFrameKind(kind)),
            },
    {
        proof {
            use_type_invariant(&*self);
            if old(self)@.fault(received@) is None {
                lemma_encode_decoded(received@);
            }
        }
        let (kind, payload) = match receive_frame(received) {
            Ok(frame) => frame,
            Err(e) => {
                self.phase = ServerPhase::Failed;
                return Err(e);
            },
        };
        if kind == FRAME_DATA {
            let first = self.phase == ServerPhase::WaitFirstFrame;
            let messages = self.counters.messages + 1;
            let counters = RunCounters {
                messages,
                bytes: self.counters.bytes + payload.len(),
                start_time: if first {
                    now
                } else {
                    self.counters.start_time
                },
                elapsed: self.counters.elapsed,
            };
            match self.mode {
                Mode::Rtt => {
                    let last = messages >= self.iterations;
                    *self = Server {
                        mode: self.mode,
                        iterations: self.iterations,
                        phase: if last {
                            ServerPhase::Respond
                        } else {
                            ServerPhase::EchoLoop
                        },
                        counters,
                    };
                    Ok(ServerAction::Echo { frame: encode_frame(FRAME_DATA, payload), metadata, last })
                },
                Mode::Throughput => {
                    *self = Server {
                        mode: self.mode,
                        iterations: self.iterations,
                        phase: ServerPhase::Accumulate,
                        counters,
                    };
                    Ok(ServerAction::Receive)
                },
            }
        } else if kind == FRAME_STOP && self.mode == Mode::Throughput {
            self.phase = ServerPhase::Respond;
            Ok(ServerAction::Respond { metadata })
        } else {
            self.phase = ServerPhase::Failed;
            Err(RunError::Protocol(ProtocolError::UnexpectedFrameKind(kind)))
        }
    }

    /// Finishes the run at time `now` and gives its counters, if the last
    /// frame of the run has been received and the run is not finished yet.
    /// For a run that goes on, is finished or was given up there are none,
    /// and nothing changes.
    pub fn finish(&mut self, now: u128) -> (r: Option<RunCounters>)
        ensures
            final(self)@ == old(self)@.finished(now as nat),
            final(self)@.wf(),
            match r {
                Some(counters) => {
                    &&& old(self)@.phase == ServerPhase::Respond
                    &&& counters.messages == final(self)@.messages
                    &&& counters.bytes == final(self)@.bytes
                    &&& counters.start_time == final(self)@.start_time
                    &&& counters.elapsed == final(self)@.elapsed
                },
                None => old(self)@.phase != ServerPhase::Respond,
            },
    {
        proof {
            use_type_invariant(&*self);
        }
        if self.phase != ServerPhase::Respond {
            return None;
        }
        let elapsed = elapsed_between(self.counters.start_time, now);
        *self = Server {
            mode: self.mode,
            iterations: self.iterations,
            phase: ServerPhase::Done,
            counters: RunCounters {
                messages: self.counters.messages,
                bytes: self.counters.bytes,
                start_time: self.counters.start_time,
                elapsed,
            },
        };
        Some(self.counters)
    }
}

} // verus!
