use arcus_client::auth::{
    build_auth_request, classify_reply, parse_mech_reply, AuthError, AuthHandshake, AuthPhase,
    AuthReply, AuthStep, EngineOutcome,
};
use rsasl::prelude::{Mechname, SASLClient, SASLConfig};

#[test]
fn mech_reply_lists_valid_names() {
    let names = parse_mech_reply(b"SASL_MECH PLAIN SCRAM-SHA-256\r\n").unwrap();
    assert_eq!(names, vec![b"PLAIN".to_vec(), b"SCRAM-SHA-256".to_vec()]);
    // Lower-case or empty words are not mechanism names.
    let names = parse_mech_reply(b"SASL_MECH  plain\tLOGIN  X_1 \r\n").unwrap();
    assert_eq!(names, vec![b"LOGIN".to_vec(), b"X_1".to_vec()]);
    assert_eq!(parse_mech_reply(b"SASL_MECH \r\n"), Some(vec![]));
    assert_eq!(parse_mech_reply(b"ERROR unknown command\r\n"), None);
    assert_eq!(parse_mech_reply(b"SASL_MECH"), None);
}

#[test]
fn mech_reply_splits_on_unicode_whitespace() {
    let line = "SASL_MECH PLAIN\u{a0}LOGIN\u{3000}SCRAM-SHA-1\u{2009}X\u{85}Y\u{1680}Z\u{205f}W\r\n";
    let names = parse_mech_reply(line.as_bytes()).unwrap();
    assert_eq!(
        names,
        vec![
            b"PLAIN".to_vec(),
            b"LOGIN".to_vec(),
            b"SCRAM-SHA-1".to_vec(),
            b"X".to_vec(),
            b"Y".to_vec(),
            b"Z".to_vec(),
            b"W".to_vec()
        ]
    );
    let expected: Vec<Vec<u8>> = "PLAIN\u{a0}LOGIN\u{3000}SCRAM-SHA-1\u{2009}X\u{85}Y\u{1680}Z\u{205f}W"
        .split_whitespace()
        .map(|w| w.as_bytes().to_vec())
        .collect();
    assert_eq!(names, expected);
    // A character that is not whitespace keeps the word whole, and invalid.
    assert_eq!(parse_mech_reply("SASL_MECH A\u{e9}B C\r\n".as_bytes()).unwrap(), vec![b"C".to_vec()]);
}

#[test]
fn handshake_offers_names_split_on_no_break_space() {
    let (mut hs, _) = AuthHandshake::start();
    let step = hs.on_line("SASL_MECH PLAIN\u{a0}LOGIN\r\n".as_bytes());
    assert_eq!(step, AuthStep::Choose(vec![b"PLAIN".to_vec(), b"LOGIN".to_vec()]));
}

#[test]
fn auth_request_names_mechanism_when_given() {
    assert_eq!(
        build_auth_request(Some(b"PLAIN"), b"\0user\0pass"),
        b"sasl auth PLAIN 10\r\n\0user\0pass\r\n".to_vec()
    );
    assert_eq!(build_auth_request(None, b"abc"), b"sasl auth 3\r\nabc\r\n".to_vec());
    assert_eq!(build_auth_request(None, b""), b"sasl auth 0\r\n\r\n".to_vec());
}

#[test]
fn replies_are_classified() {
    assert_eq!(classify_reply(b"SASL_CONTINUE\r\n"), AuthReply::Continue);
    assert_eq!(classify_reply(b"SASL_CONTINUEx"), AuthReply::Continue);
    assert_eq!(classify_reply(b"SASL_OK\r\n"), AuthReply::Accepted);
    assert_eq!(classify_reply(b"SASL_OK"), AuthReply::Refused);
    assert_eq!(classify_reply(b"AUTH_ERROR\r\n"), AuthReply::Refused);
}

#[test]
fn handshake_succeeds_after_one_round_trip() {
    let (mut hs, step) = AuthHandshake::start();
    assert_eq!(step, AuthStep::Exchange(b"sasl mech\r\n".to_vec()));
    let step = hs.on_line(b"SASL_MECH PLAIN SCRAM-SHA-256\r\n");
    assert_eq!(step, AuthStep::Choose(vec![b"PLAIN".to_vec(), b"SCRAM-SHA-256".to_vec()]));
    assert_eq!(hs.on_session(Some(b"PLAIN".to_vec())), AuthStep::Step(None));
    let step = hs.on_token(EngineOutcome::Token(b"\0u\0p".to_vec()));
    assert_eq!(step, AuthStep::Exchange(b"sasl auth PLAIN 4\r\n\0u\0p\r\n".to_vec()));
    assert_eq!(hs.on_line(b"SASL_OK\r\n"), AuthStep::Succeeded);
    assert_eq!(hs.phase, AuthPhase::Done);
}

#[test]
fn handshake_with_rsasl_engine_succeeds() {
    let config = SASLConfig::with_credentials(None, "user".to_string(), "secret".to_string()).unwrap();
    let (mut hs, _) = AuthHandshake::start();
    let names = match hs.on_line(b"SASL_MECH PLAIN SCRAM-SHA-256\r\n") {
        AuthStep::Choose(names) => names,
        other => panic!("unexpected step {:?}", other),
    };
    let offered: Vec<&Mechname> = names.iter().map(|n| Mechname::parse(n).unwrap()).collect();
    let mut session = SASLClient::new(config).start_suggested(&offered).unwrap();
    let chosen = session.get_mechname().as_bytes().to_vec();
    assert!(chosen == b"SCRAM-SHA-256".to_vec() || chosen == b"PLAIN".to_vec());
    assert_eq!(hs.on_session(Some(chosen.clone())), AuthStep::Step(None));
    let mut out = Vec::new();
    session.step(None, &mut out).unwrap();
    let outcome = EngineOutcome::Token(out.clone());
    let mut expected = b"sasl auth ".to_vec();
    expected.extend_from_slice(&chosen);
    expected.extend_from_slice(format!(" {}\r\n", out.len()).as_bytes());
    expected.extend_from_slice(&out);
    expected.extend_from_slice(b"\r\n");
    assert_eq!(hs.on_token(outcome), AuthStep::Exchange(expected));
    assert_eq!(hs.on_line(b"SASL_OK\r\n"), AuthStep::Succeeded);
}

#[test]
fn unsupported_mechanisms_fail_before_any_auth_line() {
    let config = SASLConfig::with_credentials(None, "user".to_string(), "secret".to_string()).unwrap();
    let (mut hs, _) = AuthHandshake::start();
    let names = match hs.on_line(b"SASL_MECH UNSUPPORTED-ONLY\r\n") {
        AuthStep::Choose(names) => names,
        other => panic!("unexpected step {:?}", other),
    };
    assert_eq!(names, vec![b"UNSUPPORTED-ONLY".to_vec()]);
    let offered: Vec<&Mechname> = names.iter().map(|n| Mechname::parse(n).unwrap()).collect();
    assert!(SASLClient::new(config).start_suggested(&offered).is_err());
    assert_eq!(hs.on_session(None), AuthStep::Failed(AuthError::NoSharedMechanism));
    assert_eq!(hs.phase, AuthPhase::Done);
}

#[test]
fn challenge_rounds_omit_the_mechanism() {
    let (mut hs, _) = AuthHandshake::start();
    hs.on_line(b"SASL_MECH SCRAM-SHA-256\r\n");
    hs.on_session(Some(b"SCRAM-SHA-256".to_vec()));
    let first = hs.on_token(EngineOutcome::Token(b"n,,n=u,r=abc".to_vec()));
    assert_eq!(first, AuthStep::Exchange(b"sasl auth SCRAM-SHA-256 12\r\nn,,n=u,r=abc\r\n".to_vec()));
    assert_eq!(hs.on_line(b"SASL_CONTINUE\r\n"), AuthStep::ReadLine);
    assert_eq!(hs.on_line(b"r=abcdef,s=c2FsdA==,i=4096\r\n"), AuthStep::Step(Some(b"r=abcdef,s=c2FsdA==,i=4096".to_vec())));
    let second = hs.on_token(EngineOutcome::Token(b"c=biws".to_vec()));
    assert_eq!(second, AuthStep::Exchange(b"sasl auth 6\r\nc=biws\r\n".to_vec()));
    assert_eq!(hs.on_line(b"SASL_CONTINUE\r\n"), AuthStep::ReadLine);
    // Every challenge goes back to the engine.
    assert_eq!(hs.on_line(b"v=xyz\r\n"), AuthStep::Step(Some(b"v=xyz".to_vec())));
    assert_eq!(hs.on_token(EngineOutcome::Token(Vec::new())), AuthStep::Exchange(b"sasl auth 0\r\n\r\n".to_vec()));
    assert_eq!(hs.on_line(b"SASL_OK\r\n"), AuthStep::Succeeded);
}

#[test]
fn protocol_and_refusal_errors() {
    let (mut hs, _) = AuthHandshake::start();
    assert_eq!(hs.on_line(b"ERROR\r\n"), AuthStep::Failed(AuthError::Protocol));

    let (mut hs, _) = AuthHandshake::start();
    hs.on_line(b"SASL_MECH PLAIN\r\n");
    hs.on_session(Some(b"PLAIN".to_vec()));
    hs.on_token(EngineOutcome::Token(b"x".to_vec()));
    assert_eq!(hs.on_line(b"AUTH_ERROR\r\n"), AuthStep::Failed(AuthError::Rejected));

    let (mut hs, _) = AuthHandshake::start();
    hs.on_line(b"SASL_MECH PLAIN\r\n");
    hs.on_session(Some(b"PLAIN".to_vec()));
    assert_eq!(hs.on_token(EngineOutcome::Failed), AuthStep::Failed(AuthError::Engine));
}
