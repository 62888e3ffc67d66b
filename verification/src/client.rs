//! The client's side of a run: it sends data frames and checks what comes
//! back, one round at a time in round-trip mode, one burst and one result
//! in throughput mode.
//!
//! The caller connects, asks [`Client::next_action`] what to do, sends or
//! receives accordingly, and hands each receive to [`Client::on_frame`].
//! With every call it says what time it is.

use crate::clock::{elapsed_between, time_between};
use crate::config::{BenchmarkConfig, Mode};
use crate::error::{ProtocolError, RunError};
use crate::frame::{encode_frame, encoded, FRAME_DATA, FRAME_RESULT, FRAME_STOP};
use crate::receive::{received_frame, recv_user_frame};
use crate::transport::TransportMetadata;
use vstd::prelude::*;

verus! {

/// The byte that fills every payload: the letter `x`.
pub const FILLER: u8 = 0x78;

/// The payload of every data frame that a client sends: `len` filler bytes.
pub open spec fn filler(len: nat) -> Seq<u8> {
    Seq::new(len, |i: int| FILLER)
}

/// Where a client stands in its run.
#[derive(Clone, Copy, Debug, PartialEq, Eq, Structural)]
pub enum ClientPhase {
    /// Round-trip mode: the next round's frame is to be sent.
    Sending,
    /// Round-trip mode: the echo of the frame sent last is awaited.
    AwaitEcho,
    /// Throughput mode: frames of the burst are still to be sent.
    BurstSend,
    /// Throughput mode: the burst is out, the stop frame is to be sent.
    SendStop,
    /// Throughput mode: the server's result is awaited.
    AwaitResult,
    /// The run is complete and its time taken.
    Done,
    /// The run was given up.
    Failed,
}

/// A client's state as plain values. `completed` counts the rounds that
/// were echoed in round-trip mode, the frames of the burst that were sent
/// in throughput mode. Times are in nanoseconds on the caller's clock;
/// `start_time` is that of the first send, `elapsed` is 0 until the run is
/// complete.
pub struct ClientModel {
    pub mode: Mode,
    pub iterations: nat,
    pub payload_size: nat,
    pub phase: ClientPhase,
    pub completed: nat,
    pub start_time: nat,
    pub elapsed: nat,
}

/// What a client asks its caller to do, as plain values.
pub enum ClientRequest {
    Send { frame: Seq<u8>, metadata: TransportMetadata },
    Receive,
    Halt,
}

/// What a client asks its caller to do next.
#[derive(Debug, PartialEq, Eq)]
pub enum ClientAction {
    /// Send `frame` with the tags `metadata`, then ask again.
    Send { frame: Vec<u8>, metadata: TransportMetadata },
    /// Receive once and hand over what came, then ask again.
    Receive,
    /// Nothing more is to be done: the run is complete, or was given up.
    Halt,
}

impl View for ClientAction {
    type V = ClientRequest;

    open spec fn view(&self) -> ClientRequest {
        match *self {
            ClientAction::Send { frame, metadata } => ClientRequest::Send {
                frame: frame@,
                metadata,
            },
            ClientAction::Receive => ClientRequest::Receive,
            ClientAction::Halt => ClientRequest::Halt,
        }
    }
}

/// What a complete run of a client amounts to. `elapsed` is the time from
/// the first send to the receipt of the last reply, in nanoseconds.
#[derive(Clone, Copy, Debug, PartialEq, Eq, Structural)]
pub struct ClientReport {
    pub mode: Mode,
    pub iterations: usize,
    pub payload_size: usize,
    pub elapsed: u128,
}

impl ClientReport {
    /// The number of payload bytes that the run sent: iterations times
    /// payload size. `None` where that exceeds the machine word.
    pub fn payload_bytes(&self) -> (r: Option<usize>)
        ensures
            match r {
                Some(n) => n == self.iterations * self.payload_size,
                None => self.iterations * self.payload_size > usize::MAX,
            },
    {
        self.iterations.checked_mul(self.payload_size)
    }
}

impl ClientModel {
    /// A client that has sent nothing.
    pub open spec fn initial(mode: Mode, iterations: nat, payload_size: nat) -> ClientModel {
        ClientModel {
            mode,
            iterations,
            payload_size,
            phase: match mode {
                Mode::Rtt => ClientPhase::Sending,
                Mode::Throughput => ClientPhase::BurstSend,
            },
            completed: 0,
            start_time: 0,
            elapsed: 0,
        }
    }

    /// Nothing has been sent yet.
    pub open spec fn unstarted(self) -> bool {
        self.completed == 0 && (self.phase == ClientPhase::Sending || self.phase
            == ClientPhase::BurstSend)
    }

    /// The client expects a frame.
    pub open spec fn awaiting(self) -> bool {
        self.phase == ClientPhase::AwaitEcho || self.phase == ClientPhase::AwaitResult
    }

    /// What holds of every client's state: while rounds or frames of the
    /// burst are outstanding, fewer than the configured number are
    /// complete; after that, exactly that number.
    pub open spec fn wf(self) -> bool {
        &&& self.iterations > 0
        &&& match self.phase {
            ClientPhase::Sending | ClientPhase::AwaitEcho => self.mode == Mode::Rtt
                && self.completed < self.iterations,
            ClientPhase::BurstSend => self.mode == Mode::Throughput && self.completed
                < self.iterations,
            ClientPhase::SendStop | ClientPhase::AwaitResult => self.mode == Mode::Throughput
                && self.completed == self.iterations,
            ClientPhase::Done => self.completed == self.iterations,
            ClientPhase::Failed => true,
        }
    }

    /// What the caller is to do next. Every data frame carries the same
    /// payload of `payload_size` filler bytes; the stop frame carries none.
    pub open spec fn action(self) -> ClientRequest {
        match self.phase {
            ClientPhase::Sending | ClientPhase::BurstSend => ClientRequest::Send {
                frame: encoded(FRAME_DATA, filler(self.payload_size)),
                metadata: TransportMetadata::initial(),
            },
            ClientPhase::SendStop => ClientRequest::Send {
                frame: encoded(FRAME_STOP, Seq::empty()),
                metadata: TransportMetadata::initial(),
            },
            ClientPhase::AwaitEcho | ClientPhase::AwaitResult => ClientRequest::Receive,
            ClientPhase::Done | ClientPhase::Failed => ClientRequest::Halt,
        }
    }

    /// The state once the caller has been told, at time `now`, what to do
    /// next. The first send starts the clock. A round's frame is followed by
    /// the wait for its echo. The burst goes on until as many frames are
    /// out as the run has iterations; then comes the stop frame, then the
    /// wait for the result.
    pub open spec fn after_action(self, now: nat) -> ClientModel {
        match self.phase {
            ClientPhase::Sending => ClientModel {
                phase: ClientPhase::AwaitEcho,
                start_time: if self.unstarted() {
                    now
                } else {
                    self.start_time
                },
                ..self
            },
            ClientPhase::BurstSend => ClientModel {
                phase: if self.completed + 1 >= self.iterations {
                    ClientPhase::SendStop
                } else {
                    ClientPhase::BurstSend
                },
                completed: self.completed + 1,
                start_time: if self.unstarted() {
                    now
                } else {
                    self.start_time
                },
                ..self
            },
            ClientPhase::SendStop => ClientModel { phase: ClientPhase::AwaitResult, ..self },
            _ => self,
        }
    }

    /// Why the run ends with what was received, if it does: the peer is
    /// gone, the bytes are no frame, or the frame is not the awaited one.
    /// An echo is a data frame whose payload has the configured size, its
    /// kind being looked at first; a result is a result frame of any
    /// payload.
    pub open spec fn fault(self, received: Seq<u8>) -> Option<RunError> {
        match received_frame(received) {
            Err(e) => Some(e),
            Ok((kind, payload)) => if self.phase == ClientPhase::AwaitResult {
                if kind == FRAME_RESULT {
                    None
                } else {
                    Some(RunError::Protocol(ProtocolError::UnexpectedFrameKind(kind)))
                }
            } else if kind != FRAME_DATA {
                Some(RunError::Protocol(ProtocolError::UnexpectedFrameKind(kind)))
            } else if payload.len() != self.payload_size {
                Some(
                    RunError::Protocol(
                        ProtocolError::UnexpectedPayloadSize(payload.len() as usize),
                    ),
                )
            } else {
                None
            },
        }
    }

    /// The state after a receive at time `now`. A fault ends the run. An
    /// echo completes a round, and the last round the run; so does the
    /// result. The run's time is taken when it is complete.
    pub open spec fn after_frame(self, received: Seq<u8>, now: nat) -> ClientModel {
        if !self.awaiting() {
            self
        } else if self.fault(received) is Some {
            ClientModel { phase: ClientPhase::Failed, ..self }
        } else if self.phase == ClientPhase::AwaitEcho && self.completed + 1 < self.iterations {
            ClientModel { phase: ClientPhase::Sending, completed: self.completed + 1, ..self }
        } else {
            ClientModel {
                phase: ClientPhase::Done,
                completed: if self.phase == ClientPhase::AwaitEcho {
                    self.completed + 1
                } else {
                    self.completed
                },
                elapsed: time_between(self.start_time, now),
                ..self
            }
        }
    }
}

/// A well-formed state stays well-formed, whatever the client is asked and
/// whatever it receives.
pub proof fn lemma_client_stays_wf(c: ClientModel, received: Seq<u8>, now: nat)
    requires
        c.wf(),
    ensures
        c.after_action(now).wf(),
        c.after_frame(received, now).wf(),
{
}

/// A run that was given up stays given up: the client asks for nothing
/// more and never completes.
pub proof fn lemma_client_failed_is_final(c: ClientModel, received: Seq<u8>, now: nat)
    requires
        c.phase == ClientPhase::Failed,
    ensures
        c.action() == ClientRequest::Halt,
        c.after_action(now) == c,
        c.after_frame(received, now) == c,
{
}

/// The part of a client's state that changes.
#[derive(Clone, Copy, Debug)]
struct Progress {
    phase: ClientPhase,
    completed: usize,
    start_time: u128,
    elapsed: u128,
}

/// The client's side of one run.
#[derive(Debug)]
pub struct Client {
    mode: Mode,
    iterations: usize,
    payload: Vec<u8>,
    progress: Progress,
}

impl View for Client {
    type V = ClientModel;

    closed spec fn view(&self) -> ClientModel {
        ClientModel {
            mode: self.mode,
            iterations: self.iterations as nat,
            payload_size: self.payload@.len(),
            phase: self.progress.phase,
            completed: self.progress.completed as nat,
            start_time: self.progress.start_time as nat,
            elapsed: self.progress.elapsed as nat,
        }
    }
}

impl Client {
    #[verifier::type_invariant]
    spec fn inv(&self) -> bool {
        self@.wf() && self.payload@ == filler(self.payload@.len())
    }

    /// A client for the given configuration that has sent nothing. The
    /// payload is built here, once.
    pub fn new(config: &BenchmarkConfig) -> (r: Client)
        ensures
            r@ == ClientModel::initial(config@.mode, config@.iterations, config@.payload_size),
            r@.wf(),
    {
        let payload = vec![FILLER; config.payload_size()];
        assert(payload@ =~= filler(payload@.len()));
        Client {
            mode: config.mode(),
            iterations: config.iterations(),
            payload,
            progress: Progress {
                phase: match config.mode() {
                    Mode::Rtt => ClientPhase::Sending,
                    Mode::Throughput => ClientPhase::BurstSend,
                },
                completed: 0,
                start_time: 0,
                elapsed: 0,
            },
        }
    }

    /// What the run measures.
    pub fn mode(&self) -> (r: Mode)
        ensures
            r == self@.mode,
    {
        self.mode
    }

    /// Where the client stands.
    pub fn phase(&self) -> (r: ClientPhase)
        ensures
            r == self@.phase,
            self@.wf(),
    {
        proof {
            use_type_invariant(self);
        }
        self.progress.phase
    }

    /// The rounds that were echoed, or the frames of the burst that were
    /// sent.
    pub fn completed(&self) -> (r: usize)
        ensures
            r == self@.completed,
    {
        self.progress.completed
    }

    /// Says at time `now` what to do next, and moves on where that is a
    /// send.
    pub fn next_action(&mut self, now: u128) -> (r: ClientAction)
        ensures
            r@ == old(self)@.action(),
            final(self)@ == old(self)@.after_action(now as nat),
            final(self)@.wf(),
    {
        proof {
            use_type_invariant(&*self);
        }
        let start_time = if self.progress.completed == 0 {
            now
        } else {
            self.progress.start_time
        };
        match self.progress.phase {
            ClientPhase::Sending => {
                self.progress = Progress {
                    phase: ClientPhase::AwaitEcho,
                    start_time,
                    ..self.progress
                };
                ClientAction::Send {
                    frame: encode_frame(FRAME_DATA, self.payload.as_slice()),
                    metadata: TransportMetadata::initial(),
                }
            },
            ClientPhase::BurstSend => {
                let completed = self.progress.completed + 1;
                self.progress = Progress {
                    phase: if completed >= self.iterations {
                        ClientPhase::SendStop
                    } else {
                        ClientPhase::BurstSend
                    },
                    completed,
                    start_time,
                    ..self.progress
                };
                ClientAction::Send {
                    frame: encode_frame(FRAME_DATA, self.payload.as_slice()),
                    metadata: TransportMetadata::initial(),
                }
            },
            ClientPhase::SendStop => {
                self.progress = Progress { phase: ClientPhase::AwaitResult, ..self.progress };
                let nothing: Vec<u8> = Vec::new();
                ClientAction::Send {
                    frame: encode_frame(FRAME_STOP, nothing.as_slice()),
                    metadata: TransportMetadata::initial(),
                }
            },
            ClientPhase::AwaitEcho | ClientPhase::AwaitResult => ClientAction::Receive,
            ClientPhase::Done | ClientPhase::Failed => ClientAction::Halt,
        }
    }

    /// Takes what one receive yielded at time `now`. An error ends the run.
    /// The client must expect a frame: it has asked for a receive.
    pub fn on_frame(&mut self, received: &[u8], now: u128) -> (r: Result<(), RunError>)
        requires
            old(self)@.awaiting(),
        ensures
            final(self)@ == old(self)@.after_frame(received@, now as nat),
            final(self)@.wf(),
            match r {
                Ok(()) => old(self)@.fault(received@) is None,
                Err(e) => old(self)@.fault(received@) == Some(e),
            },
    {
        proof {
            use_type_invariant(&*self);
        }
        let (kind, size) = match recv_user_frame(received) {
            Ok(frame) => frame,
            Err(e) => {
                self.progress = Progress { phase: ClientPhase::Failed, ..self.progress };
                return Err(e);
            },
        };
        let echo = self.progress.phase == ClientPhase::AwaitEcho;
        let expected = if echo {
            FRAME_DATA
        } else {
            FRAME_RESULT
        };
        if kind != expected {
            self.progress = Progress { phase: ClientPhase::Failed, ..self.progress };
            return Err(RunError::Protocol(ProtocolError::UnexpectedFrameKind(kind)));
        }
        if echo && size != self.payload.len() {
            self.progress = Progress { phase: ClientPhase::Failed, ..self.progress };
            return Err(RunError::Protocol(ProtocolError::UnexpectedPayloadSize(size)));
        }
        let completed = if echo {
            self.progress.completed + 1
        } else {
            self.progress.completed
        };
        if echo && completed < self.iterations {
            self.progress = Progress { phase: ClientPhase::Sending, completed, ..self.progress };
        } else {
            let elapsed = elapsed_between(self.progress.start_time, now);
            self.progress = Progress { phase: ClientPhase::Done, completed, elapsed, ..self.progress };
        }
        Ok(())
    }

    /// What the run amounts to, once it is complete.
    pub fn report(&self) -> (r: Option<ClientReport>)
        ensures
            match r {
                Some(report) => {
                    &&& self@.phase == ClientPhase::Done
                    &&& report.mode == self@.mode
                    &&& report.iterations == self@.iterations
                    &&& report.payload_size == self@.payload_size
                    &&& report.elapsed == self@.elapsed
                },
                None => self@.phase != ClientPhase::Done,
            },
    {
        match self.progress.phase {
            ClientPhase::Done => Some(
                ClientReport {
                    mode: self.mode,
                    iterations: self.iterations,
                    payload_size: self.payload.len(),
                    elapsed: self.progress.elapsed,
                },
            ),
            _ => None,
        }
    }
}

} // verus!
