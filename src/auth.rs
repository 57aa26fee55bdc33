//! The SASL handshake that runs on a fresh connection before user traffic.
//!
//! The wire exchange, on `\r\n`-terminated lines:
//! the client sends `sasl mech`; the server answers `SASL_MECH <names...>`;
//! the client picks a mechanism and sends `sasl auth <mech> <len>\r\n<token>\r\n`
//! (the mechanism name only the first time); the server answers
//! `SASL_CONTINUE\r\n<challenge>\r\n`, which starts another round, `SASL_OK\r\n`,
//! which ends the handshake in success, or anything else, which ends it in
//! failure.
//!
//! `AuthHandshake` owns the framing and the loop control. The caller owns the
//! socket and the SASL engine: it performs each `AuthStep` and hands back what
//! came of it.
use vstd::prelude::*;
use rsasl::mechname::MechanismNameError;
use rsasl::prelude::Mechname;
use crate::wire::{
    bytes_eq, crlf, decimal, push_all, push_decimal, space_len, space_len_at, starts_with,
    strip_crlf, without_crlf,
};

verus! {

#[verifier::external_type_specification]
#[verifier::external_body]
pub struct ExMechname(Mechname);

#[verifier::external_type_specification]
#[verifier::external_body]
pub struct ExMechanismNameError(MechanismNameError);

/// A byte that may stand in a mechanism name: `A`-`Z`, `0`-`9`, `-` or `_`.
pub open spec fn is_mech_char(b: u8) -> bool {
    (65 <= b && b <= 90) || (48 <= b && b <= 57) || b == 45 || b == 95
}

/// A well-formed mechanism name: at least one byte, each a mechanism character.
pub open spec fn valid_mechname(name: Seq<u8>) -> bool {
    name.len() > 0 && forall|i: int| 0 <= i < name.len() ==> is_mech_char(#[trigger] name[i])
}

/// Relies on `rsasl::mechname::Mechname::parse`: it accepts a non-empty name
/// made of the bytes `A-Z 0-9 - _` and refuses every other.
#[verifier::external_body]
fn parse_mechname(name: &[u8]) -> (r: Result<&Mechname, MechanismNameError>)
    ensures
        r is Ok <==> valid_mechname(name@),
{
    Mechname::parse(name)
}

/// `sasl mech\r\n`
pub open spec fn mech_request() -> Seq<u8> {
    seq![115u8, 97, 115, 108, 32, 109, 101, 99, 104, 13, 10]
}

/// `SASL_MECH `
pub open spec fn mech_reply_tag() -> Seq<u8> {
    seq![83u8, 65, 83, 76, 95, 77, 69, 67, 72, 32]
}

/// `SASL_CONTINUE`
pub open spec fn continue_tag() -> Seq<u8> {
    seq![83u8, 65, 83, 76, 95, 67, 79, 78, 84, 73, 78, 85, 69]
}

/// `SASL_OK\r\n`
pub open spec fn ok_line() -> Seq<u8> {
    seq![83u8, 65, 83, 76, 95, 79, 75, 13, 10]
}

/// `sasl auth `
pub open spec fn auth_tag() -> Seq<u8> {
    seq![115u8, 97, 115, 108, 32, 97, 117, 116, 104, 32]
}

/// The request that carries `token`, naming `mech` (followed by a space) when
/// given: `sasl auth <mech> <len>\r\n<token>\r\n`.
pub open spec fn auth_request(mech: Option<Seq<u8>>, token: Seq<u8>) -> Seq<u8> {
    auth_tag() + match mech {
        Some(m) => m.push(32u8),
        None => Seq::empty(),
    } + decimal(token.len()) + crlf() + token + crlf()
}

/// Adds the word `cur` to `acc` when it is a valid mechanism name.
pub open spec fn close_word(acc: Seq<Seq<u8>>, cur: Seq<u8>) -> Seq<Seq<u8>> {
    if valid_mechname(cur) {
        acc.push(cur)
    } else {
        acc
    }
}

/// Scans `s` for words separated by whitespace (see `space_len`), `cur`
/// being the word read so far and `acc` the valid names found before it;
/// gives the valid names of the whole, in order.
pub open spec fn scan_names(s: Seq<u8>, cur: Seq<u8>, acc: Seq<Seq<u8>>) -> Seq<Seq<u8>>
    decreases s.len(),
{
    if s.len() == 0 {
        close_word(acc, cur)
    } else if space_len(s) > 0 {
        scan_names(s.skip(space_len(s) as int), Seq::empty(), close_word(acc, cur))
    } else {
        scan_names(s.drop_first(), cur.push(s[0]), acc)
    }
}

/// The valid mechanism names among the whitespace-separated words of `s`,
/// whitespace being every character that `char::is_whitespace` accepts.
pub open spec fn names_in(s: Seq<u8>) -> Seq<Seq<u8>> {
    scan_names(s, Seq::empty(), Seq::empty())
}

/// The names that a `SASL_MECH` line offers, or `None` for any other line.
pub open spec fn offered_names(line: Seq<u8>) -> Option<Seq<Seq<u8>>> {
    if mech_reply_tag().is_prefix_of(line) {
        Some(names_in(line.subrange(mech_reply_tag().len() as int, line.len() as int)))
    } else {
        None
    }
}

/// How the server answered an `sasl auth` request.
#[derive(Clone, Copy, Debug, PartialEq, Eq, Structural)]
pub enum AuthReply {
    /// A line that begins with `SASL_CONTINUE`: a challenge line follows.
    Continue,
    /// Exactly `SASL_OK\r\n`.
    Accepted,
    /// Anything else.
    Refused,
}

pub open spec fn reply_kind(line: Seq<u8>) -> AuthReply {
    if continue_tag().is_prefix_of(line) {
        AuthReply::Continue
    } else if line == ok_line() {
        AuthReply::Accepted
    } else {
        AuthReply::Refused
    }
}

fn mech_request_bytes() -> (r: Vec<u8>)
    ensures
        r@ == mech_request(),
{
    let r = vec![115u8, 97, 115, 108, 32, 109, 101, 99, 104, 13, 10];
    assert(r@ =~= mech_request());
    r
}

fn mech_reply_tag_bytes() -> (r: Vec<u8>)
    ensures
        r@ == mech_reply_tag(),
{
    let r = vec![83u8, 65, 83, 76, 95, 77, 69, 67, 72, 32];
    assert(r@ =~= mech_reply_tag());
    r
}

fn continue_tag_bytes() -> (r: Vec<u8>)
    ensures
        r@ == continue_tag(),
{
    let r = vec![83u8, 65, 83, 76, 95, 67, 79, 78, 84, 73, 78, 85, 69];
    assert(r@ =~= continue_tag());
    r
}

fn ok_line_bytes() -> (r: Vec<u8>)
    ensures
        r@ == ok_line(),
{
    let r = vec![83u8, 65, 83, 76, 95, 79, 75, 13, 10];
    assert(r@ =~= ok_line());
    r
}

/// Builds `sasl auth <mech> <len>\r\n<token>\r\n`, naming the mechanism only
/// when `mech` is given.
pub fn build_auth_request(mech: Option<&[u8]>, token: &[u8]) -> (r: Vec<u8>)
    ensures
        r@ == auth_request(
            match mech {
                Some(m) => Some(m@),
                None => None,
            },
            token@,
        ),
{
    let mut r = vec![115u8, 97, 115, 108, 32, 97, 117, 116, 104, 32];
    assert(r@ =~= auth_tag());
    if let Some(m) = mech {
        push_all(&mut r, m);
        r.push(32);
    }
    push_decimal(&mut r, token.len());
    r.push(13);
    r.push(10);
    push_all(&mut r, token);
    r.push(13);
    r.push(10);
    proof {
        let ms = match mech {
            Some(m) => m@.push(32u8),
            None => Seq::<u8>::empty(),
        };
        assert(r@ =~= auth_tag() + ms + decimal(token@.len()) + crlf() + token@ + crlf());
    }
    r
}

/// The valid mechanism names among the whitespace-separated words of
/// `s[from..]`, in order.
fn collect_names(s: &[u8], from: usize) -> (r: Vec<Vec<u8>>)
    requires
        from <= s@.len(),
    ensures
        r@.map_values(|v: Vec<u8>| v@) == names_in(s@.subrange(from as int, s@.len() as int)),
{
    let ghost whole = s@.subrange(from as int, s@.len() as int);
    let mut acc: Vec<Vec<u8>> = Vec::new();
    let mut cur: Vec<u8> = Vec::new();
    let mut i: usize = from;
    assert(acc@.map_values(|v: Vec<u8>| v@) =~= Seq::<Seq<u8>>::empty());
    while i < s.len()
        invariant
            from <= i <= s@.len(),
            whole == s@.subrange(from as int, s@.len() as int),
            scan_names(s@.subrange(i as int, s@.len() as int), cur@, acc@.map_values(|v: Vec<u8>| v@))
                == names_in(whole),
        decreases s@.len() - i,
    {
        let ghost rest = s@.subrange(i as int, s@.len() as int);
        let k: usize = space_len_at(s, i);
        if k > 0 {
            assert(rest.skip(k as int) =~= s@.subrange(i + k, s@.len() as int));
            close_current(&mut acc, &mut cur);
            i = i + k;
        } else {
            assert(rest.drop_first() =~= s@.subrange(i + 1, s@.len() as int));
            cur.push(s[i]);
            i = i + 1;
        }
    }
    close_current(&mut acc, &mut cur);
    acc
}

/// Moves the word `cur` into `acc` when it is a valid mechanism name, and
/// empties `cur`.
fn close_current(acc: &mut Vec<Vec<u8>>, cur: &mut Vec<u8>)
    ensures
        final(acc)@.map_values(|v: Vec<u8>| v@) == close_word(
            old(acc)@.map_values(|v: Vec<u8>| v@),
            old(cur)@,
        ),
        final(cur)@ == Seq::<u8>::empty(),
{
    let mut word: Vec<u8> = Vec::new();
    core::mem::swap(&mut word, cur);
    let valid = parse_mechname(word.as_slice()).is_ok();
    if valid {
        acc.push(word);
        assert(acc@.map_values(|v: Vec<u8>| v@) =~= old(acc)@.map_values(|v: Vec<u8>| v@).push(
            old(cur)@,
        ));
    }
}

/// The mechanism names that a `SASL_MECH` line offers; `None` for a line
/// that does not begin with `SASL_MECH `.
pub fn parse_mech_reply(line: &[u8]) -> (r: Option<Vec<Vec<u8>>>)
    ensures
        match offered_names(line@) {
            Some(names) => r matches Some(v) && v@.map_values(|w: Vec<u8>| w@) == names,
            None => r is None,
        },
{
    let tag = mech_reply_tag_bytes();
    if !starts_with(line, tag.as_slice()) {
        return None;
    }
    Some(collect_names(line, tag.len()))
}

/// Classifies the server's answer to an `sasl auth` request.
pub fn classify_reply(line: &[u8]) -> (r: AuthReply)
    ensures
        r == reply_kind(line@),
{
    let cont = continue_tag_bytes();
    if starts_with(line, cont.as_slice()) {
        return AuthReply::Continue;
    }
    let ok = ok_line_bytes();
    if bytes_eq(line, ok.as_slice()) {
        AuthReply::Accepted
    } else {
        AuthReply::Refused
    }
}

/// Why a handshake failed.
#[derive(Clone, Copy, Debug, PartialEq, Eq, Structural)]
pub enum AuthError {
    /// The answer to `sasl mech` was not a `SASL_MECH` line.
    Protocol,
    /// The engine supports none of the offered mechanisms.
    NoSharedMechanism,
    /// The engine failed.
    Engine,
    /// The server answered an `sasl auth` request with neither
    /// `SASL_CONTINUE` nor `SASL_OK`.
    Rejected,
}

/// What one step of the SASL engine gave.
#[derive(Debug, PartialEq, Eq)]
pub enum EngineOutcome {
    /// A token for the server, possibly empty.
    Token(Vec<u8>),
    /// The engine failed.
    Failed,
}

/// What the caller is to do next.
#[derive(Debug, PartialEq, Eq)]
pub enum AuthStep {
    /// Write these bytes, then read one line and hand it to `on_line`.
    Exchange(Vec<u8>),
    /// Read one line and hand it to `on_line`.
    ReadLine,
    /// Start an engine session on one of these mechanisms, by the engine's own
    /// preference, and hand the name chosen (`None`: none shared) to `on_session`.
    Choose(Vec<Vec<u8>>),
    /// Run one engine step on this input and hand what came of it to `on_token`.
    Step(Option<Vec<u8>>),
    /// The server accepted the client.
    Succeeded,
    /// The handshake is over without success.
    Failed(AuthError),
}

/// Where a handshake stands.
#[derive(Clone, Copy, Debug, PartialEq, Eq, Structural)]
pub enum AuthPhase {
    /// `sasl mech` sent; waiting for the mechanism list.
    AwaitMechs,
    /// Waiting for the engine to pick a mechanism.
    AwaitSession,
    /// Waiting for the engine's next token.
    AwaitToken,
    /// `sasl auth` sent; waiting for the server's answer.
    AwaitReply,
    /// `SASL_CONTINUE` read; waiting for the challenge line.
    AwaitChallenge,
    /// Over.
    Done,
}

pub open spec fn opt_bytes(o: Option<Vec<u8>>) -> Option<Seq<u8>> {
    match o {
        Some(v) => Some(v@),
        None => None,
    }
}

/// `step` writes exactly `bytes` and then reads a line.
pub open spec fn exchanges(step: AuthStep, bytes: Seq<u8>) -> bool {
    match step {
        AuthStep::Exchange(b) => b@ == bytes,
        _ => false,
    }
}

/// One SASL handshake, from `sasl mech` to success or failure.
pub struct AuthHandshake {
    pub phase: AuthPhase,
    /// The mechanism name that the next `sasl auth` request carries: only the
    /// first request names it.
    pub mechanism: Option<Vec<u8>>,
}

impl AuthHandshake {
    /// Starts a handshake: `sasl mech\r\n` is to be sent.
    pub fn start() -> (r: (AuthHandshake, AuthStep))
        ensures
            r.0.phase == AuthPhase::AwaitMechs,
            r.0.mechanism is None,
            exchanges(r.1, mech_request()),
    {
        (
            AuthHandshake { phase: AuthPhase::AwaitMechs, mechanism: None },
            AuthStep::Exchange(mech_request_bytes()),
        )
    }

    /// A line read from the server.
    ///
    /// After `sasl mech`: a `SASL_MECH` line hands its valid mechanism names
    /// to the engine to choose from; any other line is a protocol error.
    /// After `sasl auth`: `SASL_CONTINUE` asks for the challenge line,
    /// `SASL_OK\r\n` ends in success, anything else in failure.
    /// A challenge line, without its `\r\n`, is fed to the engine; whether the
    /// engine can take it is the engine's to say, in `on_token`.
    pub fn on_line(&mut self, line: &[u8]) -> (r: AuthStep)
        requires
            old(self).phase == AuthPhase::AwaitMechs || old(self).phase == AuthPhase::AwaitReply
                || old(self).phase == AuthPhase::AwaitChallenge,
        ensures
            final(self).mechanism == old(self).mechanism,
            old(self).phase == AuthPhase::AwaitMechs ==> match offered_names(line@) {
                None => final(self).phase == AuthPhase::Done && r == AuthStep::Failed(
                    AuthError::Protocol,
                ),
                Some(names) => {
                    &&& final(self).phase == AuthPhase::AwaitSession
                    &&& r matches AuthStep::Choose(v) && v@.map_values(|w: Vec<u8>| w@) == names
                },
            },
            old(self).phase == AuthPhase::AwaitReply ==> match reply_kind(line@) {
                AuthReply::Continue => final(self).phase == AuthPhase::AwaitChallenge && r
                    == AuthStep::ReadLine,
                AuthReply::Accepted => final(self).phase == AuthPhase::Done && r
                    == AuthStep::Succeeded,
                AuthReply::Refused => final(self).phase == AuthPhase::Done && r == AuthStep::Failed(
                    AuthError::Rejected,
                ),
            },
            old(self).phase == AuthPhase::AwaitChallenge ==> {
                &&& final(self).phase == AuthPhase::AwaitToken
                &&& r matches AuthStep::Step(Some(t)) && t@ == strip_crlf(line@)
            },
    {
        match self.phase {
            AuthPhase::AwaitMechs => {
                match parse_mech_reply(line) {
                    None => {
                        self.phase = AuthPhase::Done;
                        AuthStep::Failed(AuthError::Protocol)
                    },
                    Some(names) => {
                        self.phase = AuthPhase::AwaitSession;
                        AuthStep::Choose(names)
                    },
                }
            },
            AuthPhase::AwaitReply => {
                match classify_reply(line) {
                    AuthReply::Continue => {
                        self.phase = AuthPhase::AwaitChallenge;
                        AuthStep::ReadLine
                    },
                    AuthReply::Accepted => {
                        self.phase = AuthPhase::Done;
                        AuthStep::Succeeded
                    },
                    AuthReply::Refused => {
                        self.phase = AuthPhase::Done;
                        AuthStep::Failed(AuthError::Rejected)
                    },
                }
            },
            _ => {
                self.phase = AuthPhase::AwaitToken;
                AuthStep::Step(Some(without_crlf(line)))
            },
        }
    }

    /// The mechanism that the engine chose, or `None` when it shares none of
    /// those offered; the first engine step, with no input, follows.
    pub fn on_session(&mut self, chosen: Option<Vec<u8>>) -> (r: AuthStep)
        requires
            old(self).phase == AuthPhase::AwaitSession,
        ensures
            chosen is None ==> final(self).phase == AuthPhase::Done && r == AuthStep::Failed(
                AuthError::NoSharedMechanism,
            ),
            chosen is Some ==> {
                &&& final(self).phase == AuthPhase::AwaitToken
                &&& opt_bytes(final(self).mechanism) == opt_bytes(chosen)
                &&& r == AuthStep::Step(None)
            },
    {
        match chosen {
            None => {
                self.phase = AuthPhase::Done;
                AuthStep::Failed(AuthError::NoSharedMechanism)
            },
            Some(name) => {
                self.mechanism = Some(name);
                self.phase = AuthPhase::AwaitToken;
                AuthStep::Step(None)
            },
        }
    }

    /// What the engine step gave: its token goes out in an `sasl auth`
    /// request, which names the mechanism the first time only.
    pub fn on_token(&mut self, outcome: EngineOutcome) -> (r: AuthStep)
        requires
            old(self).phase == AuthPhase::AwaitToken,
        ensures
            outcome is Failed ==> final(self).phase == AuthPhase::Done && r == AuthStep::Failed(
                AuthError::Engine,
            ),
            match outcome {
                EngineOutcome::Token(t) => {
                    &&& final(self).phase == AuthPhase::AwaitReply
                    &&& final(self).mechanism is None
                    &&& exchanges(r, auth_request(opt_bytes(old(self).mechanism), t@))
                },
                EngineOutcome::Failed => true,
            },
    {
        let token = match outcome {
            EngineOutcome::Failed => {
                self.phase = AuthPhase::Done;
                return AuthStep::Failed(AuthError::Engine);
            },
            EngineOutcome::Token(t) => t,
        };
        let mut mech: Option<Vec<u8>> = None;
        core::mem::swap(&mut mech, &mut self.mechanism);
        let request = match &mech {
            Some(m) => build_auth_request(Some(m.as_slice()), token.as_slice()),
            None => build_auth_request(None, token.as_slice()),
        };
        self.phase = AuthPhase::AwaitReply;
        AuthStep::Exchange(request)
    }
}

} // verus!
