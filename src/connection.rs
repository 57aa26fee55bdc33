//! What the three transports share: the kind of transport, the settings a
//! channel takes, and the termination of outbound command lines.
use vstd::prelude::*;
use crate::wire::{crlf, push_all};

verus! {

/// The three kinds of transport.
#[derive(Clone, Copy, Debug, PartialEq, Eq, Structural)]
pub enum TransportKind {
    /// A reliable stream over TCP.
    Tcp,
    /// Datagrams, with framing and reassembly.
    Udp,
    /// A reliable stream over a local socket.
    Unix,
}

/// Settings of a channel: the request id and timeout (datagram only) and
/// whether a new connection authenticates.
#[derive(Clone, Copy, Debug, PartialEq, Eq, Structural)]
pub struct ChannelSettings {
    pub request_id: u16,
    pub timeout: u64,
    pub auth: bool,
}

impl ChannelSettings {
    /// No request id, no timeout, no authentication.
    pub fn new() -> (r: ChannelSettings)
        ensures
            r.request_id == 0 && r.timeout == 0 && !r.auth,
    {
        ChannelSettings { request_id: 0, timeout: 0, auth: false }
    }

    /// Applies the configured values to a channel of kind `kind`: every kind
    /// takes the authentication flag; only a datagram channel takes the
    /// request id and the timeout.
    pub fn setting(&mut self, kind: TransportKind, rqid: u16, time: u64, auth: bool)
        ensures
            final(self).auth == auth,
            kind == TransportKind::Udp ==> final(self).request_id == rqid && final(self).timeout
                == time,
            kind != TransportKind::Udp ==> final(self).request_id == old(self).request_id
                && final(self).timeout == old(self).timeout,
    {
        if kind == TransportKind::Udp {
            self.request_id = rqid;
            self.timeout = time;
        }
        self.auth = auth;
    }
}

/// `line` as it goes on the wire: ending in `\r\n`, with only what is missing
/// of the terminator added.
pub open spec fn terminated(line: Seq<u8>) -> Seq<u8> {
    if line.len() >= 2 && line.subrange(line.len() - 2, line.len() as int) == crlf() {
        line
    } else if line.len() >= 1 && line.last() == 13 {
        line.push(10)
    } else {
        line + crlf()
    }
}

/// Terminates an outbound command line with `\r\n` unless it already ends so.
pub fn terminate_line(line: &[u8]) -> (r: Vec<u8>)
    ensures
        r@ == terminated(line@),
{
    let n: usize = line.len();
    let mut r: Vec<u8> = Vec::new();
    push_all(&mut r, line);
    assert(r@ =~= line@);
    if n >= 2 && line[n - 2] == 13 && line[n - 1] == 10 {
        assert(line@.subrange(n - 2, n as int) =~= crlf());
    } else {
        if n >= 2 {
            assert(line@.subrange(n - 2, n as int)[0] == line@[n - 2]);
            assert(line@.subrange(n - 2, n as int)[1] == line@[n - 1]);
        }
        if !(n >= 1 && line[n - 1] == 13) {
            r.push(13);
        }
        r.push(10);
        assert(r@ =~= terminated(line@));
    }
    r
}

} // verus!
