//! Decisions of a reliable stream channel (TCP or a local stream socket).
//!
//! The socket and the background reader live with the caller; the channel
//! decides which candidate address to try next, when to authenticate, when to
//! start the reader, whether a failed write calls for a reconnect, and whether
//! teardown has a reader to wait for.
use vstd::prelude::*;

verus! {

/// Why a connection attempt failed.
#[derive(Clone, Copy, Debug, PartialEq, Eq, Structural)]
pub enum ConnectFailure {
    /// The peer refused the connection.
    Refused,
    /// Any other error.
    Other,
}

/// What the caller is to do next while connecting.
#[derive(Clone, Copy, Debug, PartialEq, Eq, Structural)]
pub enum ConnectStep {
    /// Try the candidate address with this index; report with `on_attempt`.
    Try(usize),
    /// Run the authentication handshake on the new socket; report with
    /// `on_authenticated`.
    Authenticate,
    /// Start the background reader; the channel is up.
    StartReader,
    /// Every candidate refused: report it and stay disconnected.
    StayDisconnected,
    /// No candidate, or an error other than a refusal: the process cannot go on.
    Fatal,
}

/// Where a stream channel stands.
#[derive(Clone, Copy, Debug, PartialEq, Eq, Structural)]
pub enum StreamPhase {
    /// No connection.
    Idle,
    /// Trying the candidate with this index.
    Trying(usize),
    /// Connected; the handshake runs before the reader starts.
    Authenticating,
    /// Connected, with the background reader running.
    Connected,
}

/// The decision state of a stream channel.
#[derive(Clone, Copy, Debug, PartialEq, Eq, Structural)]
pub struct StreamChannel {
    /// Whether a new connection runs the authentication handshake.
    pub auth: bool,
    /// How many candidate addresses the current attempt has.
    pub candidates: usize,
    pub phase: StreamPhase,
    /// Whether an attempt of the current round failed otherwise than by refusal.
    pub saw_other_error: bool,
}

impl StreamChannel {
    pub open spec fn wf(&self) -> bool {
        match self.phase {
            StreamPhase::Trying(i) => i < self.candidates,
            _ => true,
        }
    }

    /// A channel with no connection.
    pub fn new(auth: bool) -> (r: StreamChannel)
        ensures
            r.wf(),
            r.auth == auth,
            r.phase == StreamPhase::Idle,
    {
        StreamChannel { auth, candidates: 0, phase: StreamPhase::Idle, saw_other_error: false }
    }

    /// Starts connecting to an address that resolved to `candidates`
    /// addresses; any earlier connection counts as gone.
    pub fn begin_connect(&mut self, candidates: usize) -> (r: ConnectStep)
        ensures
            final(self).wf(),
            final(self).auth == old(self).auth,
            final(self).candidates == candidates,
            !final(self).saw_other_error,
            candidates == 0 ==> final(self).phase == StreamPhase::Idle && r == ConnectStep::Fatal,
            candidates > 0 ==> final(self).phase == StreamPhase::Trying(0) && r == ConnectStep::Try(
                0,
            ),
    {
        self.candidates = candidates;
        self.saw_other_error = false;
        if candidates == 0 {
            self.phase = StreamPhase::Idle;
            ConnectStep::Fatal
        } else {
            self.phase = StreamPhase::Trying(0);
            ConnectStep::Try(0)
        }
    }

    /// The attempt on the current candidate connected (`None`) or failed.
    /// After a failure the next candidate is tried; once none is left, the
    /// round ends: in a fatal error if any attempt failed otherwise than by
    /// refusal, else disconnected.
    pub fn on_attempt(&mut self, failure: Option<ConnectFailure>) -> (r: ConnectStep)
        requires
            old(self).wf(),
            old(self).phase is Trying,
        ensures
            final(self).wf(),
            final(self).auth == old(self).auth,
            final(self).candidates == old(self).candidates,
            failure is None && old(self).auth ==> final(self).phase == StreamPhase::Authenticating
                && r == ConnectStep::Authenticate,
            failure is None && !old(self).auth ==> final(self).phase == StreamPhase::Connected && r
                == ConnectStep::StartReader,
            failure is Some ==> {
                let i = old(self).phase->Trying_0;
                let saw = old(self).saw_other_error || failure == Some(ConnectFailure::Other);
                &&& final(self).saw_other_error == saw
                &&& i + 1 < old(self).candidates ==> final(self).phase == StreamPhase::Trying(
                    (i + 1) as usize,
                ) && r == ConnectStep::Try((i + 1) as usize)
                &&& i + 1 == old(self).candidates && saw ==> final(self).phase == StreamPhase::Idle
                    && r == ConnectStep::Fatal
                &&& i + 1 == old(self).candidates && !saw ==> final(self).phase
                    == StreamPhase::Idle && r == ConnectStep::StayDisconnected
            },
    {
        let i: usize = match self.phase {
            StreamPhase::Trying(i) => i,
            _ => 0,
        };
        match failure {
            None => {
                if self.auth {
                    self.phase = StreamPhase::Authenticating;
                    ConnectStep::Authenticate
                } else {
                    self.phase = StreamPhase::Connected;
                    ConnectStep::StartReader
                }
            },
            Some(f) => {
                if f == ConnectFailure::Other {
                    self.saw_other_error = true;
                }
                if i + 1 < self.candidates {
                    self.phase = StreamPhase::Trying(i + 1);
                    ConnectStep::Try(i + 1)
                } else {
                    self.phase = StreamPhase::Idle;
                    if self.saw_other_error {
                        ConnectStep::Fatal
                    } else {
                        ConnectStep::StayDisconnected
                    }
                }
            },
        }
    }

    /// The handshake is over, whatever its outcome; the reader starts.
    pub fn on_authenticated(&mut self) -> (r: ConnectStep)
        requires
            old(self).phase == StreamPhase::Authenticating,
        ensures
            final(self).wf(),
            final(self).auth == old(self).auth,
            final(self).phase == StreamPhase::Connected,
            r == ConnectStep::StartReader,
    {
        self.phase = StreamPhase::Connected;
        ConnectStep::StartReader
    }

    /// Whether teardown has a running reader: then the write side is to be
    /// half-closed first and the reader joined after it has seen the end of
    /// the stream.
    pub fn reader_running(&self) -> (r: bool)
        ensures
            r == (self.phase == StreamPhase::Connected),
    {
        self.phase == StreamPhase::Connected
    }
}

/// What came of writing a line.
#[derive(Clone, Copy, Debug, PartialEq, Eq, Structural)]
pub enum WriteResult {
    /// There was no connection to write on.
    NotConnected,
    Written,
    /// The peer has closed its side.
    BrokenPipe,
    /// Any other error.
    Failed,
}

/// What a write calls for.
#[derive(Clone, Copy, Debug, PartialEq, Eq, Structural)]
pub enum WriteVerdict {
    Done,
    /// The connection is stale: the caller should reconnect.
    Reconnect,
    /// Report the error; no reconnect.
    Report,
}

/// Only a missing connection or a broken pipe calls for a reconnect; any
/// other error is reported and otherwise passed over.
pub fn write_verdict(result: WriteResult) -> (r: WriteVerdict)
    ensures
        r == match result {
            WriteResult::NotConnected | WriteResult::BrokenPipe => WriteVerdict::Reconnect,
            WriteResult::Written => WriteVerdict::Done,
            WriteResult::Failed => WriteVerdict::Report,
        },
{
    match result {
        WriteResult::NotConnected | WriteResult::BrokenPipe => WriteVerdict::Reconnect,
        WriteResult::Written => WriteVerdict::Done,
        WriteResult::Failed => WriteVerdict::Report,
    }
}

/// What one line read of the background reader gave.
#[derive(Clone, Copy, Debug, PartialEq, Eq, Structural)]
pub enum ReadResult {
    /// A line of this many bytes (0: the peer closed the stream).
    Read(usize),
    Failed,
}

/// What the background reader does next.
#[derive(Clone, Copy, Debug, PartialEq, Eq, Structural)]
pub enum ReaderAction {
    /// Forward the line and read on.
    Forward,
    /// Report the error and read on.
    Report,
    /// End of stream: the reader ends.
    Stop,
}

/// A read of zero bytes is the end of the stream and ends the reader; a line
/// is forwarded; an error is reported and the reader goes on.
pub fn reader_step(result: ReadResult) -> (r: ReaderAction)
    ensures
        r == match result {
            ReadResult::Read(n) => if n == 0 {
                ReaderAction::Stop
            } else {
                ReaderAction::Forward
            },
            ReadResult::Failed => ReaderAction::Report,
        },
{
    match result {
        ReadResult::Read(n) => if n == 0 {
            ReaderAction::Stop
        } else {
            ReaderAction::Forward
        },
        ReadResult::Failed => ReaderAction::Report,
    }
}

} // verus!
