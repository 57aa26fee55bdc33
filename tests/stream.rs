use arcus_client::stream::{
    reader_step, write_verdict, ConnectFailure, ConnectStep, ReadResult, ReaderAction,
    StreamChannel, StreamPhase, WriteResult, WriteVerdict,
};

#[test]
fn broken_pipe_calls_for_reconnect() {
    assert_eq!(write_verdict(WriteResult::BrokenPipe), WriteVerdict::Reconnect);
    assert_eq!(write_verdict(WriteResult::NotConnected), WriteVerdict::Reconnect);
}

#[test]
fn other_write_errors_are_reported_without_reconnect() {
    assert_eq!(write_verdict(WriteResult::Failed), WriteVerdict::Report);
    assert_eq!(write_verdict(WriteResult::Written), WriteVerdict::Done);
}

#[test]
fn reader_stops_at_end_of_stream() {
    assert_eq!(reader_step(ReadResult::Read(0)), ReaderAction::Stop);
    assert_eq!(reader_step(ReadResult::Read(5)), ReaderAction::Forward);
    assert_eq!(reader_step(ReadResult::Failed), ReaderAction::Report);
}

#[test]
fn connect_tries_candidates_in_turn() {
    let mut ch = StreamChannel::new(false);
    assert_eq!(ch.begin_connect(3), ConnectStep::Try(0));
    assert_eq!(ch.on_attempt(Some(ConnectFailure::Refused)), ConnectStep::Try(1));
    assert_eq!(ch.on_attempt(None), ConnectStep::StartReader);
    assert_eq!(ch.phase, StreamPhase::Connected);
    assert!(ch.reader_running());
}

#[test]
fn authentication_runs_before_the_reader() {
    let mut ch = StreamChannel::new(true);
    ch.begin_connect(1);
    assert_eq!(ch.on_attempt(None), ConnectStep::Authenticate);
    assert!(!ch.reader_running());
    assert_eq!(ch.on_authenticated(), ConnectStep::StartReader);
    assert!(ch.reader_running());
}

#[test]
fn all_refused_stays_disconnected() {
    let mut ch = StreamChannel::new(false);
    ch.begin_connect(2);
    ch.on_attempt(Some(ConnectFailure::Refused));
    assert_eq!(ch.on_attempt(Some(ConnectFailure::Refused)), ConnectStep::StayDisconnected);
    assert_eq!(ch.phase, StreamPhase::Idle);
    assert!(!ch.reader_running());
}

#[test]
fn other_connect_error_is_fatal() {
    let mut ch = StreamChannel::new(false);
    ch.begin_connect(2);
    ch.on_attempt(Some(ConnectFailure::Other));
    assert_eq!(ch.on_attempt(Some(ConnectFailure::Refused)), ConnectStep::Fatal);
    let mut ch = StreamChannel::new(false);
    assert_eq!(ch.begin_connect(0), ConnectStep::Fatal);
}

#[test]
fn reconnect_starts_a_fresh_round() {
    let mut ch = StreamChannel::new(false);
    ch.begin_connect(1);
    ch.on_attempt(None);
    assert_eq!(ch.begin_connect(1), ConnectStep::Try(0));
    assert!(!ch.reader_running());
    assert!(!ch.saw_other_error);
}
