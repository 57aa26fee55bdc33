//! One request/reply exchange over an unreliable datagram socket.
//!
//! The socket itself lives with the caller: `DatagramExchange` says what to
//! send or receive next and is told what came of it. A receive that times out
//! flips the sync mode (framed replies with a header, or raw ones) and ends the
//! exchange; this is a heuristic for a peer that stopped answering, not a
//! protocol guarantee.
use vstd::prelude::*;
use crate::codec::{
    build_header, count_of, encoded_frames, index_of, parse_header, payload_of,
    raw_frames, request_id_of, split_message, HEADER_LEN,
};

verus! {

/// Whether replies are expected to carry a frame header.
#[derive(Clone, Copy, Debug, PartialEq, Eq, Structural)]
pub enum SyncMode {
    Framed,
    Raw,
}

pub open spec fn flipped(m: SyncMode) -> SyncMode {
    match m {
        SyncMode::Framed => SyncMode::Raw,
        SyncMode::Raw => SyncMode::Framed,
    }
}

impl SyncMode {
    /// The other mode.
    pub fn flip(self) -> (r: SyncMode)
        ensures
            r == flipped(self),
    {
        match self {
            SyncMode::Framed => SyncMode::Raw,
            SyncMode::Raw => SyncMode::Framed,
        }
    }
}

/// Why a datagram exchange ended without a reply.
#[derive(Clone, Copy, Debug, PartialEq, Eq, Structural)]
pub enum DatagramError {
    SendFailed,
    ReceiveFailed,
    InvalidHeader,
}

/// What came of one receive on the socket.
#[derive(Debug, PartialEq, Eq)]
pub enum ReceiveOutcome {
    Datagram(Vec<u8>),
    TimedOut,
    Failed,
}

/// What the caller is to do next.
#[derive(Debug, PartialEq, Eq)]
pub enum DatagramStep {
    /// Send these bytes, then call `on_sent`.
    Send(Vec<u8>),
    /// Receive one datagram, then call `on_received`.
    Receive,
    /// The assembled reply; the exchange is over.
    Deliver(Vec<u8>),
    /// The exchange is over, with the error to report if there is one.
    Finish(Option<DatagramError>),
}

/// A first frame that a reassembly can start from: a header that names the
/// expected request, at least one frame, and an index among them.
pub open spec fn first_frame_ok(d: Seq<u8>, request_id: nat) -> bool {
    &&& d.len() >= HEADER_LEN
    &&& request_id_of(d) == request_id
    &&& count_of(d) > 0
    &&& index_of(d) < count_of(d)
}

/// A later frame that fits a buffer of `count` slots for `request_id`.
pub open spec fn frame_fits(d: Seq<u8>, request_id: nat, count: nat) -> bool {
    &&& d.len() >= HEADER_LEN
    &&& request_id_of(d) == request_id
    &&& index_of(d) < count
}

/// The slots of a buffer sized by the first frame `d`, holding its payload.
pub open spec fn start_slots(d: Seq<u8>) -> Seq<Seq<u8>> {
    Seq::new(count_of(d), |i: int| Seq::<u8>::empty()).update(index_of(d) as int, payload_of(d))
}

/// `slots` after storing the payload of frame `d` at its index.
pub open spec fn store(slots: Seq<Seq<u8>>, d: Seq<u8>) -> Seq<Seq<u8>> {
    slots.update(index_of(d) as int, payload_of(d))
}

/// The payloads of the frames of one reply, by index.
pub struct Reassembly {
    pub request_id: u16,
    pub slots: Vec<Vec<u8>>,
}

impl Reassembly {
    pub open spec fn contents(&self) -> Seq<Seq<u8>> {
        self.slots@.map_values(|s: Vec<u8>| s@)
    }

    /// Sizes a buffer by the count that the first frame `d` announces and stores
    /// its payload; fails on a header that does not fit.
    pub fn start(request_id: u16, d: &[u8]) -> (r: Result<Reassembly, DatagramError>)
        ensures
            match r {
                Ok(b) => {
                    &&& first_frame_ok(d@, request_id as nat)
                    &&& b.request_id == request_id
                    &&& b.contents() == start_slots(d@)
                },
                Err(e) => !first_frame_ok(d@, request_id as nat) && e == DatagramError::InvalidHeader,
            },
    {
        if d.len() < HEADER_LEN {
            return Err(DatagramError::InvalidHeader);
        }
        let hdr = parse_header(d);
        if hdr.request_id != request_id as usize || hdr.count == 0 || hdr.index >= hdr.count {
            return Err(DatagramError::InvalidHeader);
        }
        let mut slots: Vec<Vec<u8>> = Vec::new();
        let mut i: usize = 0;
        while i < hdr.count
            invariant
                i <= hdr.count,
                slots@.len() == i,
                forall|j: int| 0 <= j < i ==> (#[trigger] slots@[j])@ == Seq::<u8>::empty(),
            decreases hdr.count - i,
        {
            slots.push(Vec::new());
            i = i + 1;
        }
        let mut b = Reassembly { request_id, slots };
        b.put(hdr.index, d);
        assert(b.contents() =~= start_slots(d@));
        Ok(b)
    }

    /// Stores the payload of `d` in slot `index`.
    fn put(&mut self, index: usize, d: &[u8])
        requires
            index < old(self).slots@.len(),
            d@.len() >= HEADER_LEN,
        ensures
            final(self).request_id == old(self).request_id,
            final(self).slots@.len() == old(self).slots@.len(),
            final(self).contents() == old(self).contents().update(index as int, payload_of(d@)),
    {
        let mut payload: Vec<u8> = Vec::new();
        let mut i: usize = HEADER_LEN;
        while i < d.len()
            invariant
                HEADER_LEN <= i <= d@.len(),
                payload@ == d@.subrange(HEADER_LEN as int, i as int),
            decreases d@.len() - i,
        {
            payload.push(d[i]);
            assert(d@.subrange(HEADER_LEN as int, i + 1) =~= d@.subrange(HEADER_LEN as int, i as int).push(
                d@[i as int],
            ));
            i = i + 1;
        }
        self.slots.set(index, payload);
        assert(self.contents() =~= old(self).contents().update(index as int, payload_of(d@)));
    }

    /// Stores a later frame `d` at its index; a frame of another request, or
    /// one whose index is past the buffer, is an invalid header and changes
    /// nothing.
    pub fn accept(&mut self, d: &[u8]) -> (r: Result<(), DatagramError>)
        ensures
            final(self).request_id == old(self).request_id,
            final(self).slots@.len() == old(self).slots@.len(),
            r is Ok <==> frame_fits(d@, old(self).request_id as nat, old(self).slots@.len()),
            r is Ok ==> final(self).contents() == store(old(self).contents(), d@),
            r is Err ==> final(self).contents() == old(self).contents() && r == Err::<
                (),
                DatagramError,
            >(DatagramError::InvalidHeader),
    {
        if d.len() < HEADER_LEN {
            return Err(DatagramError::InvalidHeader);
        }
        let hdr = parse_header(d);
        if hdr.request_id != self.request_id as usize || hdr.index >= self.slots.len() {
            return Err(DatagramError::InvalidHeader);
        }
        self.put(hdr.index, d);
        Ok(())
    }

    /// The slots concatenated in index order.
    pub fn assemble(&self) -> (r: Vec<u8>)
        ensures
            r@ == self.contents().flatten_alt(),
    {
        let mut out: Vec<u8> = Vec::new();
        let mut i: usize = 0;
        while i < self.slots.len()
            invariant
                i <= self.slots@.len(),
                out@ == self.contents().take(i as int).flatten_alt(),
            decreases self.slots@.len() - i,
        {
            let s = &self.slots[i];
            let mut j: usize = 0;
            let ghost before = out@;
            while j < s.len()
                invariant
                    j <= s@.len(),
                    out@ == before + s@.take(j as int),
                decreases s@.len() - j,
            {
                out.push(s[j]);
                assert(s@.take(j + 1) =~= s@.take(j as int).push(s@[j as int]));
                j = j + 1;
            }
            assert(self.contents().take(i + 1).drop_last() =~= self.contents().take(i as int));
            assert(s@.take(j as int) =~= s@);
            i = i + 1;
        }
        assert(self.contents().take(i as int) =~= self.contents());
        out
    }
}

/// Frames delivered out of order into a buffer sized by a count of three
/// (index 2, then 0, then 1) assemble to what in-order delivery gives: the
/// three payloads in index order.
pub proof fn lemma_out_of_order_reassembly(request_id: nat, f0: Seq<u8>, f1: Seq<u8>, f2: Seq<u8>)
    requires
        first_frame_ok(f0, request_id) && index_of(f0) == 0 && count_of(f0) == 3,
        first_frame_ok(f1, request_id) && index_of(f1) == 1 && count_of(f1) == 3,
        first_frame_ok(f2, request_id) && index_of(f2) == 2 && count_of(f2) == 3,
    ensures
        store(store(start_slots(f2), f0), f1).flatten_alt() == store(
            store(start_slots(f0), f1),
            f2,
        ).flatten_alt(),
        store(store(start_slots(f0), f1), f2).flatten_alt() == payload_of(f0) + payload_of(f1)
            + payload_of(f2),
{
    let expected = seq![payload_of(f0), payload_of(f1), payload_of(f2)];
    assert(store(store(start_slots(f2), f0), f1) =~= expected);
    assert(store(store(start_slots(f0), f1), f2) =~= expected);
    assert(expected.drop_last().drop_last().drop_last() =~= Seq::<Seq<u8>>::empty());
    assert(expected.drop_last().drop_last() =~= seq![payload_of(f0)]);
    assert(expected.drop_last() =~= seq![payload_of(f0), payload_of(f1)]);
    let e2 = expected.drop_last();
    let e1 = e2.drop_last();
    assert(e1.drop_last().flatten_alt() == Seq::<u8>::empty());
    assert(e1.flatten_alt() =~= payload_of(f0));
    assert(e2.flatten_alt() =~= payload_of(f0) + payload_of(f1));
    assert(expected.flatten_alt() =~= payload_of(f0) + payload_of(f1) + payload_of(f2));
}

/// The frames that a line goes out as in sync mode `mode`.
pub open spec fn wire_frames(mode: SyncMode, request_id: nat, line: Seq<u8>) -> Seq<Seq<u8>> {
    match mode {
        SyncMode::Framed => encoded_frames(request_id, line),
        SyncMode::Raw => raw_frames(line),
    }
}

/// `step` asks to send exactly `bytes`.
pub open spec fn sends(step: DatagramStep, bytes: Seq<u8>) -> bool {
    match step {
        DatagramStep::Send(f) => f@ == bytes,
        _ => false,
    }
}

/// `step` delivers exactly `bytes` as the reply.
pub open spec fn delivers(step: DatagramStep, bytes: Seq<u8>) -> bool {
    match step {
        DatagramStep::Deliver(f) => f@ == bytes,
        _ => false,
    }
}

/// Where an exchange stands.
pub enum Phase {
    /// The first frame is out; waiting to hear whether the send worked.
    AwaitSent,
    /// Waiting for the first reply datagram.
    AwaitReply,
    /// Receiving the `remaining` further frames of a reply into `buffer`.
    Collecting { remaining: usize, buffer: Reassembly },
    /// Over.
    Done,
}

/// One write on a datagram channel, from the first send to the reply.
///
/// Only the first frame of a message is ever sent: whatever the receive that
/// follows it brings (a reply, a timeout, an error) ends the sending.
pub struct DatagramExchange {
    pub request_id: u16,
    pub mode: SyncMode,
    pub phase: Phase,
}

impl DatagramExchange {
    pub open spec fn wf(&self) -> bool {
        match self.phase {
            Phase::Collecting { remaining, buffer } => remaining > 0 && buffer.request_id
                == self.request_id,
            _ => true,
        }
    }

    /// Starts an exchange for `line`: its first frame in sync mode `mode` is to
    /// be sent; an empty line has no frame and ends at once.
    pub fn start(request_id: u16, mode: SyncMode, line: &[u8]) -> (r: (DatagramExchange, DatagramStep))
        ensures
            r.0.wf(),
            r.0.request_id == request_id,
            r.0.mode == mode,
            wire_frames(mode, request_id as nat, line@).len() == 0 ==> r.0.phase is Done && r.1
                == DatagramStep::Finish(None),
            wire_frames(mode, request_id as nat, line@).len() > 0 ==> r.0.phase is AwaitSent
                && sends(r.1, wire_frames(mode, request_id as nat, line@)[0]),
    {
        let mut frames = match mode {
            SyncMode::Framed => build_header(request_id, line),
            SyncMode::Raw => split_message(line),
        };
        assert(frames@.len() == wire_frames(mode, request_id as nat, line@).len());
        if frames.len() == 0 {
            return (
                DatagramExchange { request_id, mode, phase: Phase::Done },
                DatagramStep::Finish(None),
            );
        }
        let first = frames.remove(0);
        (DatagramExchange { request_id, mode, phase: Phase::AwaitSent }, DatagramStep::Send(first))
    }

    /// The send of the first frame worked (`ok`) or failed; a failed send
    /// ends the exchange.
    pub fn on_sent(&mut self, ok: bool) -> (r: DatagramStep)
        requires
            old(self).phase is AwaitSent,
        ensures
            final(self).wf(),
            final(self).request_id == old(self).request_id,
            final(self).mode == old(self).mode,
            ok ==> final(self).phase is AwaitReply && r == DatagramStep::Receive,
            !ok ==> final(self).phase is Done && r == DatagramStep::Finish(
                Some(DatagramError::SendFailed),
            ),
    {
        if ok {
            self.phase = Phase::AwaitReply;
            DatagramStep::Receive
        } else {
            self.phase = Phase::Done;
            DatagramStep::Finish(Some(DatagramError::SendFailed))
        }
    }

    /// What the receive asked for brought.
    ///
    /// Waiting for the first reply: a timeout flips the sync mode and ends the
    /// exchange with no reassembly; another failure ends it with an error; a
    /// datagram puts the channel in framed mode and starts the reassembly of a
    /// reply of as many frames as its header announces.
    ///
    /// Collecting: a frame of another request ends the exchange with an
    /// invalid header; a failed receive is passed over; once as many receives
    /// as the reply has further frames are done, the slots are delivered in
    /// index order.
    pub fn on_received(&mut self, outcome: ReceiveOutcome) -> (r: DatagramStep)
        requires
            old(self).wf(),
            old(self).phase is AwaitReply || old(self).phase is Collecting,
        ensures
            final(self).wf(),
            final(self).request_id == old(self).request_id,
            old(self).phase is AwaitReply ==> match outcome {
                ReceiveOutcome::TimedOut => {
                    &&& final(self).mode == flipped(old(self).mode)
                    &&& final(self).phase is Done
                    &&& r == DatagramStep::Finish(None)
                },
                ReceiveOutcome::Failed => {
                    &&& final(self).mode == old(self).mode
                    &&& final(self).phase is Done
                    &&& r == DatagramStep::Finish(Some(DatagramError::ReceiveFailed))
                },
                ReceiveOutcome::Datagram(d) => {
                    &&& final(self).mode == SyncMode::Framed
                    &&& !first_frame_ok(d@, old(self).request_id as nat) ==> final(self).phase is Done
                        && r == DatagramStep::Finish(Some(DatagramError::InvalidHeader))
                    &&& first_frame_ok(d@, old(self).request_id as nat) && count_of(d@) == 1
                        ==> final(self).phase is Done && delivers(r, start_slots(d@).flatten_alt())
                    &&& first_frame_ok(d@, old(self).request_id as nat) && count_of(d@) > 1 ==> {
                        &&& r == DatagramStep::Receive
                        &&& final(self).phase matches Phase::Collecting { remaining, buffer }
                            && remaining == count_of(d@) - 1 && buffer.contents() == start_slots(
                            d@,
                        )
                    }
                },
            },
            old(self).phase matches Phase::Collecting { remaining, buffer } ==> {
                let stored = match outcome {
                    ReceiveOutcome::Datagram(d) => store(buffer.contents(), d@),
                    _ => buffer.contents(),
                };
                let rejected = match outcome {
                    ReceiveOutcome::Datagram(d) => !frame_fits(
                        d@,
                        old(self).request_id as nat,
                        buffer.slots@.len(),
                    ),
                    _ => false,
                };
                &&& final(self).mode == old(self).mode
                &&& rejected ==> final(self).phase is Done && r == DatagramStep::Finish(
                    Some(DatagramError::InvalidHeader),
                )
                &&& !rejected && remaining == 1 ==> final(self).phase is Done && delivers(
                    r,
                    stored.flatten_alt(),
                )
                &&& !rejected && remaining > 1 ==> {
                    &&& r == DatagramStep::Receive
                    &&& final(self).phase matches Phase::Collecting { remaining: left, buffer: b }
                        && left == remaining - 1 && b.contents() == stored && b.slots@.len()
                        == buffer.slots@.len()
                }
            },
    {
        let mut phase = Phase::Done;
        core::mem::swap(&mut phase, &mut self.phase);
        match phase {
            Phase::Collecting { remaining, mut buffer } => {
                if let ReceiveOutcome::Datagram(d) = outcome {
                    if buffer.accept(d.as_slice()).is_err() {
                        return DatagramStep::Finish(Some(DatagramError::InvalidHeader));
                    }
                }
                if remaining == 1 {
                    DatagramStep::Deliver(buffer.assemble())
                } else {
                    self.phase = Phase::Collecting { remaining: remaining - 1, buffer };
                    DatagramStep::Receive
                }
            },
            _ => {
                match outcome {
                    ReceiveOutcome::TimedOut => {
                        self.mode = self.mode.flip();
                        DatagramStep::Finish(None)
                    },
                    ReceiveOutcome::Failed => DatagramStep::Finish(
                        Some(DatagramError::ReceiveFailed),
                    ),
                    ReceiveOutcome::Datagram(d) => {
                        self.mode = SyncMode::Framed;
                        match Reassembly::start(self.request_id, d.as_slice()) {
                            Err(e) => DatagramStep::Finish(Some(e)),
                            Ok(buffer) => {
                                assert(buffer.contents().len() == buffer.slots@.len());
                                if buffer.slots.len() == 1 {
                                    DatagramStep::Deliver(buffer.assemble())
                                } else {
                                    let remaining: usize = buffer.slots.len() - 1;
                                    self.phase = Phase::Collecting { remaining, buffer };
                                    DatagramStep::Receive
                                }
                            },
                        }
                    },
                }
            },
        }
    }
}

} // verus!
