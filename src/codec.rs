//! Datagram frames: an 8-byte header followed by at most `MTU` payload bytes.
//!
//! Each of the three header fields (request id, sequence index, total count)
//! takes two bytes `hi, lo` and stands for the value `255 * hi + lo`. The
//! base is 255, not 256: peers on the wire use it, so it is kept as it is.
use vstd::prelude::*;

verus! {

/// Largest payload carried by one frame.
pub const MTU: usize = 1400;

/// Length of a frame header.
pub const HEADER_LEN: usize = 8;

/// First (high) byte of a header field holding `v`; wraps like a `u8` cast.
pub open spec fn field_hi(v: nat) -> u8 {
    (v / 255) as u8
}

/// Second (low) byte of a header field holding `v`.
pub open spec fn field_lo(v: nat) -> u8 {
    (v % 255) as u8
}

/// The value that the two bytes of a header field stand for.
pub open spec fn field_value(hi: u8, lo: u8) -> nat {
    (255 * hi + lo) as nat
}

/// The eight header bytes of frame `index` out of `count` of request `request_id`.
pub open spec fn header_bytes(request_id: nat, index: nat, count: nat) -> Seq<u8> {
    seq![
        field_hi(request_id), field_lo(request_id),
        field_hi(index), field_lo(index),
        field_hi(count), field_lo(count),
        0u8, 0u8,
    ]
}

/// Number of chunks of at most `MTU` bytes that a payload of `len` bytes splits into.
pub open spec fn chunk_count(len: nat) -> nat {
    ((len + MTU - 1) / MTU as int) as nat
}

/// End (exclusive) of chunk `i` in a payload of `len` bytes.
pub open spec fn chunk_end(len: nat, i: nat) -> nat {
    if (i + 1) * MTU > len {
        len
    } else {
        ((i + 1) * MTU) as nat
    }
}

/// Chunk `i` of `payload`.
pub open spec fn chunk(payload: Seq<u8>, i: nat) -> Seq<u8> {
    payload.subrange((i * MTU) as int, chunk_end(payload.len(), i) as int)
}

/// The chunks of `payload` without headers, in ascending order.
pub open spec fn raw_frames(payload: Seq<u8>) -> Seq<Seq<u8>> {
    Seq::new(chunk_count(payload.len()), |i: int| chunk(payload, i as nat))
}

/// The frames that carry `payload` for request `request_id`, in ascending index order.
pub open spec fn encoded_frames(request_id: nat, payload: Seq<u8>) -> Seq<Seq<u8>> {
    Seq::new(
        chunk_count(payload.len()),
        |i: int|
            header_bytes(request_id, i as nat, chunk_count(payload.len())) + chunk(
                payload,
                i as nat,
            ),
    )
}

/// The header fields that a datagram of at least `HEADER_LEN` bytes announces.
pub open spec fn request_id_of(d: Seq<u8>) -> nat {
    field_value(d[0], d[1])
}

pub open spec fn index_of(d: Seq<u8>) -> nat {
    field_value(d[2], d[3])
}

pub open spec fn count_of(d: Seq<u8>) -> nat {
    field_value(d[4], d[5])
}

/// The payload of a framed datagram: what follows the header.
pub open spec fn payload_of(d: Seq<u8>) -> Seq<u8> {
    d.subrange(HEADER_LEN as int, d.len() as int)
}

/// The three fields of a frame header.
#[derive(Clone, Copy, Debug, PartialEq, Eq, Structural)]
pub struct FrameHeader {
    pub request_id: usize,
    pub index: usize,
    pub count: usize,
}

/// Number of frames a payload of `len` bytes takes.
pub fn frame_count(len: usize) -> (r: usize)
    ensures
        r == chunk_count(len as nat),
{
    let q: usize = len / MTU;
    let r: usize = len % MTU;
    assert(len as int == q * MTU + r);
    if r == 0 {
        assert((len + MTU - 1) / (MTU as int) == q) by (nonlinear_arith)
            requires
                len as int == q * 1400 + r,
                r == 0,
        ;
        q
    } else {
        assert((len + MTU - 1) / (MTU as int) == q + 1) by (nonlinear_arith)
            requires
                len as int == q * 1400 + r,
                0 < r < 1400,
        ;
        q + 1
    }
}

/// Reads the three fields of the header that opens `head`.
pub fn parse_header(head: &[u8]) -> (r: FrameHeader)
    requires
        head@.len() >= HEADER_LEN,
    ensures
        r.request_id == request_id_of(head@),
        r.index == index_of(head@),
        r.count == count_of(head@),
{
    FrameHeader {
        request_id: 255 * head[0] as usize + head[1] as usize,
        index: 255 * head[2] as usize + head[3] as usize,
        count: 255 * head[4] as usize + head[5] as usize,
    }
}

/// Appends `src[from..to]` to `dst`.
fn push_range(dst: &mut Vec<u8>, src: &[u8], from: usize, to: usize)
    requires
        from <= to <= src@.len(),
    ensures
        final(dst)@ == old(dst)@ + src@.subrange(from as int, to as int),
{
    let mut i: usize = from;
    while i < to
        invariant
            from <= i <= to <= src@.len(),
            dst@ == old(dst)@ + src@.subrange(from as int, i as int),
        decreases to - i,
    {
        dst.push(src[i]);
        proof {
            assert(src@.subrange(from as int, i + 1) =~= src@.subrange(from as int, i as int).push(
                src@[i as int],
            ));
        }
        i = i + 1;
    }
    assert(dst@ =~= old(dst)@ + src@.subrange(from as int, to as int));
}

/// End of chunk `i` of a payload of `len` bytes, computed without overflow.
fn chunk_end_of(len: usize, i: usize) -> (r: usize)
    requires
        i < chunk_count(len as nat),
    ensures
        r == chunk_end(len as nat, i as nat),
        i * MTU <= r <= len,
{
    assert(i * MTU < len) by (nonlinear_arith)
        requires
            i < (len + 1400 - 1) / 1400,
    ;
    if len - i * MTU > MTU {
        assert((i + 1) * MTU == i * MTU + MTU) by (nonlinear_arith);
        i * MTU + MTU
    } else {
        assert((i + 1) * MTU == i * MTU + MTU) by (nonlinear_arith);
        len
    }
}

/// Encodes the two bytes of a header field holding `v`.
fn push_field(dst: &mut Vec<u8>, v: usize)
    ensures
        final(dst)@ == old(dst)@.push(field_hi(v as nat)).push(field_lo(v as nat)),
{
    dst.push((v / 255) as u8);
    dst.push((v % 255) as u8);
}

/// Splits `line` into frames of request `rqid`, each with its header.
pub fn build_header(rqid: u16, line: &[u8]) -> (r: Vec<Vec<u8>>)
    ensures
        r@.len() == chunk_count(line@.len()),
        forall|i: int|
            0 <= i < r@.len() ==> (#[trigger] r@[i])@ == encoded_frames(rqid as nat, line@)[i],
{
    let split: usize = frame_count(line.len());
    let mut ret: Vec<Vec<u8>> = Vec::new();
    let mut i: usize = 0;
    while i < split
        invariant
            split == chunk_count(line@.len()),
            i <= split,
            ret@.len() == i,
            forall|j: int|
                0 <= j < i ==> (#[trigger] ret@[j])@ == encoded_frames(rqid as nat, line@)[j],
        decreases split - i,
    {
        let mut frame: Vec<u8> = Vec::new();
        push_field(&mut frame, rqid as usize);
        push_field(&mut frame, i);
        push_field(&mut frame, split);
        frame.push(0);
        frame.push(0);
        let last: usize = chunk_end_of(line.len(), i);
        push_range(&mut frame, line, i * MTU, last);
        assert(frame@ =~= encoded_frames(rqid as nat, line@)[i as int]);
        ret.push(frame);
        i = i + 1;
    }
    ret
}

/// Splits `line` into chunks of at most `MTU` bytes, with no header.
pub fn split_message(line: &[u8]) -> (r: Vec<Vec<u8>>)
    ensures
        r@.len() == chunk_count(line@.len()),
        forall|i: int| 0 <= i < r@.len() ==> (#[trigger] r@[i])@ == raw_frames(line@)[i],
{
    let split: usize = frame_count(line.len());
    let mut ret: Vec<Vec<u8>> = Vec::new();
    let mut i: usize = 0;
    while i < split
        invariant
            split == chunk_count(line@.len()),
            i <= split,
            ret@.len() == i,
            forall|j: int| 0 <= j < i ==> (#[trigger] ret@[j])@ == raw_frames(line@)[j],
        decreases split - i,
    {
        let mut frame: Vec<u8> = Vec::new();
        let last: usize = chunk_end_of(line.len(), i);
        push_range(&mut frame, line, i * MTU, last);
        assert(frame@ =~= raw_frames(line@)[i as int]);
        ret.push(frame);
        i = i + 1;
    }
    ret
}

/// Decoding a header field gives back the value encoded, for every value whose
/// high byte fits in a `u8`.
proof fn lemma_field_round_trip(v: nat)
    requires
        v < 255 * 256,
    ensures
        field_value(field_hi(v), field_lo(v)) == v,
{
    assert(v / 255 < 256);
    assert(field_hi(v) == v / 255);
    assert(field_lo(v) == v % 255);
}

/// Every request id, sequence index and total count in `0..=65024` is read back
/// exactly from the header that encodes it.
pub proof fn lemma_header_round_trip(request_id: nat, index: nat, count: nat)
    requires
        request_id <= 65024,
        index <= 65024,
        count <= 65024,
    ensures
        request_id_of(header_bytes(request_id, index, count)) == request_id,
        index_of(header_bytes(request_id, index, count)) == index,
        count_of(header_bytes(request_id, index, count)) == count,
{
    lemma_field_round_trip(request_id);
    lemma_field_round_trip(index);
    lemma_field_round_trip(count);
}

/// Where the first `k` chunks of a payload of `len` bytes end.
spec fn prefix_end(len: nat, k: nat) -> nat {
    if k * MTU > len {
        len
    } else {
        (k * MTU) as nat
    }
}

/// The first `k` chunks, concatenated, are the payload up to `prefix_end`.
proof fn lemma_chunks_prefix(payload: Seq<u8>, k: nat)
    requires
        k <= chunk_count(payload.len()),
    ensures
        Seq::new(k, |i: int| chunk(payload, i as nat)).flatten_alt() =~= payload.subrange(
            0,
            prefix_end(payload.len(), k) as int,
        ),
    decreases k,
{
    let len: nat = payload.len();
    let s = Seq::new(k, |i: int| chunk(payload, i as nat));
    if k > 0 {
        let j: nat = (k - 1) as nat;
        lemma_chunks_prefix(payload, j);
        assert(s.drop_last() =~= Seq::new(j, |i: int| chunk(payload, i as nat)));
        assert(j * MTU < len) by (nonlinear_arith)
            requires
                j < (len + 1400 - 1) / 1400,
        ;
        assert(k * MTU == j * MTU + MTU) by (nonlinear_arith)
            requires
                k == j + 1,
        ;
        assert(prefix_end(len, j) == j * MTU);
        assert(chunk_end(len, j) == prefix_end(len, k));
    }
}

/// Splitting a payload into frames and reading them back: every frame announces
/// `id`, its own index and the number of frames, and the payloads of the frames,
/// taken in index order, make up the payload again. A request id or a frame
/// count of 65280 or more does not fit the two header bytes.
pub proof fn lemma_frames_round_trip(id: nat, payload: Seq<u8>)
    requires
        id < 65280,
        chunk_count(payload.len()) < 65280,
    ensures
        forall|i: int|
            0 <= i < encoded_frames(id, payload).len() ==> {
                let f = #[trigger] encoded_frames(id, payload)[i];
                &&& f.len() >= HEADER_LEN
                &&& request_id_of(f) == id
                &&& index_of(f) == i
                &&& count_of(f) == encoded_frames(id, payload).len()
            },
        encoded_frames(id, payload).map_values(|f: Seq<u8>| payload_of(f)).flatten() == payload,
{
    let frames = encoded_frames(id, payload);
    let n: nat = chunk_count(payload.len());
    assert forall|i: int| 0 <= i < frames.len() implies {
        let f = #[trigger] frames[i];
        &&& f.len() >= HEADER_LEN
        &&& request_id_of(f) == id
        &&& index_of(f) == i
        &&& count_of(f) == frames.len()
    } by {
        lemma_field_round_trip(id);
        lemma_field_round_trip(i as nat);
        lemma_field_round_trip(n);
    }
    let parts = frames.map_values(|f: Seq<u8>| payload_of(f));
    assert forall|i: int| 0 <= i < n implies #[trigger] parts[i] == chunk(payload, i as nat) by {
        let h = header_bytes(id, i as nat, n);
        assert(payload_of(h + chunk(payload, i as nat)) =~= chunk(payload, i as nat));
    }
    assert(parts =~= Seq::new(n, |i: int| chunk(payload, i as nat)));
    lemma_chunks_prefix(payload, n);
    assert(n * MTU >= payload.len()) by (nonlinear_arith)
        requires
            n == (payload.len() + 1400 - 1) / 1400,
    ;
    parts.lemma_flatten_and_flatten_alt_are_equivalent();
    assert(payload.subrange(0, payload.len() as int) =~= payload);
}

} // verus!
