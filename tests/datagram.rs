use arcus_client::codec::build_header;
use arcus_client::datagram::{
    DatagramError, DatagramExchange, DatagramStep, Phase, Reassembly, ReceiveOutcome, SyncMode,
};

fn frame(rqid: u8, index: u8, count: u8, body: &[u8]) -> Vec<u8> {
    let mut f = vec![0, rqid, 0, index, 0, count, 0, 0];
    f.extend_from_slice(body);
    f
}

#[test]
fn out_of_order_frames_reassemble_like_in_order() {
    let f0 = frame(1, 0, 3, b"alpha ");
    let f1 = frame(1, 1, 3, b"beta ");
    let f2 = frame(1, 2, 3, b"gamma");

    let mut shuffled = Reassembly::start(1, &f2).unwrap();
    assert_eq!(shuffled.slots.len(), 3);
    shuffled.accept(&f0).unwrap();
    shuffled.accept(&f1).unwrap();

    let mut ordered = Reassembly::start(1, &f0).unwrap();
    ordered.accept(&f1).unwrap();
    ordered.accept(&f2).unwrap();

    assert_eq!(shuffled.assemble(), ordered.assemble());
    assert_eq!(ordered.assemble(), b"alpha beta gamma".to_vec());
}

#[test]
fn request_id_mismatch_is_invalid_header() {
    let mut b = Reassembly::start(1, &frame(1, 0, 2, b"ok")).unwrap();
    assert_eq!(b.accept(&frame(2, 1, 2, b"no")), Err(DatagramError::InvalidHeader));
    assert_eq!(b.slots[1], Vec::<u8>::new());
    assert_eq!(Reassembly::start(5, &frame(1, 0, 1, b"x")).err(), Some(DatagramError::InvalidHeader));
}

#[test]
fn malformed_first_frames_are_invalid_headers() {
    // Shorter than a header.
    assert!(Reassembly::start(1, &[0, 1, 0]).is_err());
    // A count of zero.
    assert!(Reassembly::start(1, &frame(1, 0, 0, b"x")).is_err());
    // An index past the count.
    assert!(Reassembly::start(1, &frame(1, 3, 3, b"x")).is_err());
    // A later frame past the buffer.
    let mut b = Reassembly::start(1, &frame(1, 0, 2, b"x")).unwrap();
    assert!(b.accept(&frame(1, 2, 2, b"y")).is_err());
}

#[test]
fn timeout_on_first_round_flips_framed_to_raw() {
    let (mut ex, step) = DatagramExchange::start(1, SyncMode::Framed, b"get k\r\n");
    let expected = build_header(1, b"get k\r\n").remove(0);
    assert_eq!(step, DatagramStep::Send(expected));
    assert_eq!(ex.on_sent(true), DatagramStep::Receive);
    assert_eq!(ex.on_received(ReceiveOutcome::TimedOut), DatagramStep::Finish(None));
    assert_eq!(ex.mode, SyncMode::Raw);
    assert!(matches!(ex.phase, Phase::Done));
}

#[test]
fn timeout_in_raw_mode_flips_back_to_framed() {
    let (mut ex, step) = DatagramExchange::start(1, SyncMode::Raw, b"get k\r\n");
    assert_eq!(step, DatagramStep::Send(b"get k\r\n".to_vec()));
    ex.on_sent(true);
    assert_eq!(ex.on_received(ReceiveOutcome::TimedOut), DatagramStep::Finish(None));
    assert_eq!(ex.mode, SyncMode::Framed);
}

#[test]
fn single_frame_reply_is_delivered() {
    let (mut ex, _) = DatagramExchange::start(3, SyncMode::Raw, b"stats\r\n");
    ex.on_sent(true);
    let step = ex.on_received(ReceiveOutcome::Datagram(frame(3, 0, 1, b"END\r\n")));
    assert_eq!(step, DatagramStep::Deliver(b"END\r\n".to_vec()));
    assert_eq!(ex.mode, SyncMode::Framed);
}

#[test]
fn multi_frame_reply_is_collected_in_index_order() {
    let (mut ex, _) = DatagramExchange::start(1, SyncMode::Framed, b"get k\r\n");
    ex.on_sent(true);
    assert_eq!(ex.on_received(ReceiveOutcome::Datagram(frame(1, 2, 3, b"C"))), DatagramStep::Receive);
    assert_eq!(ex.on_received(ReceiveOutcome::Datagram(frame(1, 0, 3, b"A"))), DatagramStep::Receive);
    assert_eq!(
        ex.on_received(ReceiveOutcome::Datagram(frame(1, 1, 3, b"B"))),
        DatagramStep::Deliver(b"ABC".to_vec())
    );
}

#[test]
fn failed_receive_while_collecting_uses_up_a_round() {
    let (mut ex, _) = DatagramExchange::start(1, SyncMode::Framed, b"x");
    ex.on_sent(true);
    assert_eq!(ex.on_received(ReceiveOutcome::Datagram(frame(1, 0, 2, b"A"))), DatagramStep::Receive);
    assert_eq!(ex.on_received(ReceiveOutcome::TimedOut), DatagramStep::Deliver(b"A".to_vec()));
    assert_eq!(ex.mode, SyncMode::Framed);
}

#[test]
fn mismatch_after_first_frame_aborts_reassembly() {
    let (mut ex, _) = DatagramExchange::start(1, SyncMode::Framed, b"x");
    ex.on_sent(true);
    ex.on_received(ReceiveOutcome::Datagram(frame(1, 0, 3, b"A")));
    assert_eq!(
        ex.on_received(ReceiveOutcome::Datagram(frame(9, 1, 3, b"B"))),
        DatagramStep::Finish(Some(DatagramError::InvalidHeader))
    );
    assert!(matches!(ex.phase, Phase::Done));
}

#[test]
fn send_and_receive_failures_end_the_exchange() {
    let (mut ex, _) = DatagramExchange::start(1, SyncMode::Framed, b"x");
    assert_eq!(ex.on_sent(false), DatagramStep::Finish(Some(DatagramError::SendFailed)));
    let (mut ex, _) = DatagramExchange::start(1, SyncMode::Raw, b"x");
    ex.on_sent(true);
    assert_eq!(ex.on_received(ReceiveOutcome::Failed), DatagramStep::Finish(Some(DatagramError::ReceiveFailed)));
    assert_eq!(ex.mode, SyncMode::Raw);
}

#[test]
fn empty_line_sends_nothing() {
    let (ex, step) = DatagramExchange::start(1, SyncMode::Framed, b"");
    assert_eq!(step, DatagramStep::Finish(None));
    assert!(matches!(ex.phase, Phase::Done));
}

#[test]
fn flip_swaps_modes() {
    assert_eq!(SyncMode::Framed.flip(), SyncMode::Raw);
    assert_eq!(SyncMode::Raw.flip(), SyncMode::Framed);
}
