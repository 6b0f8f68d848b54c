//! Byte relaying between an SSH client and a forwarded TCP target: which
//! side failed, how many bytes had gone through, and how the session log
//! records the end of a relayed session.
use vstd::prelude::*;

use crate::session_registry::TERMINATED_BY_MANAGEMENT;
use crate::text::{dec, extend_str, from_chars, push_dec};

verus! {

/// The side of a relay.
#[derive(Debug, Clone, Copy, PartialEq, Eq, Structural)]
pub enum RelayPeer {
    Client,
    Target,
}

/// What a relay was doing when it failed.
#[derive(Debug, Clone, Copy, PartialEq, Eq, Structural)]
pub enum RelayOperation {
    Read,
    Write,
}

/// How a side is named in messages.
pub open spec fn peer_name(p: RelayPeer) -> Seq<char> {
    match p {
        RelayPeer::Client => "client"@,
        RelayPeer::Target => "target"@,
    }
}

/// How an operation is named in messages.
pub open spec fn operation_name(o: RelayOperation) -> Seq<char> {
    match o {
        RelayOperation::Read => "read"@,
        RelayOperation::Write => "write"@,
    }
}

impl RelayPeer {
    /// `client` or `target`.
    pub fn name(&self) -> (r: &'static str)
        ensures
            r@ == peer_name(*self),
    {
        match self {
            RelayPeer::Client => "client",
            RelayPeer::Target => "target",
        }
    }
}

impl RelayOperation {
    /// `read` or `write`.
    pub fn name(&self) -> (r: &'static str)
        ensures
            r@ == operation_name(*self),
    {
        match self {
            RelayOperation::Read => "read",
            RelayOperation::Write => "write",
        }
    }
}

#[verifier::external_type_specification]
#[verifier::external_body]
pub struct ExIoError(std::io::Error);

/// The `Display` text of an I/O error. Nothing is stated of it: it is the
/// standard library's wording, or the operating system's.
#[verifier::external_body]
fn io_error_text(err: &std::io::Error) -> String {
    err.to_string()
}

/// A relay failure: which side, doing what, after how many bytes of this
/// direction, and the underlying I/O error.
#[derive(Debug)]
pub struct RelayIoError {
    pub peer: RelayPeer,
    pub operation: RelayOperation,
    pub bytes: u64,
    pub source: std::io::Error,
    /// The text of `source`, taken when the error was made.
    pub source_text: String,
}

impl RelayIoError {
    pub fn new(peer: RelayPeer, operation: RelayOperation, bytes: u64, source: std::io::Error) -> (r: Self)
        ensures
            r.peer == peer,
            r.operation == operation,
            r.bytes == bytes,
    {
        let source_text = io_error_text(&source);
        RelayIoError { peer, operation, bytes, source, source_text }
    }

    /// `<peer> <operation> failed after <bytes> bytes: <source>`.
    pub fn message(&self) -> (r: String)
        ensures
            r@ == relay_failure_text(self.peer, self.operation, self.bytes as nat, self.source_text@),
    {
        let mut out: Vec<char> = Vec::new();
        self.push_message(&mut out);
        from_chars(&out)
    }

    fn push_message(&self, out: &mut Vec<char>)
        ensures
            final(out)@ == old(out)@ + relay_failure_text(self.peer, self.operation, self.bytes as nat, self.source_text@),
    {
        extend_str(out, self.peer.name());
        extend_str(out, " ");
        extend_str(out, self.operation.name());
        extend_str(out, " failed after ");
        push_dec(out, self.bytes);
        extend_str(out, " bytes: ");
        extend_str(out, self.source_text.as_str());
    }
}

/// The text of a relay failure.
pub open spec fn relay_failure_text(peer: RelayPeer, op: RelayOperation, bytes: nat, source: Seq<char>) -> Seq<char> {
    peer_name(peer) + " "@ + operation_name(op) + " failed after "@ + dec(bytes) + " bytes: "@ + source
}

/// The text of a relay failure followed by the byte totals of both directions.
pub open spec fn relay_error_text(failure: Seq<char>, to_target: nat, to_client: nat) -> Seq<char> {
    failure + "; totals client->target="@ + dec(to_target) + " bytes, target->client="@ + dec(to_client) + " bytes"@
}

/// The message a failed relay ends the session with: the failure and the
/// totals each direction had reached.
pub fn relay_error_message(err: &RelayIoError, client_to_target_bytes: u64, target_to_client_bytes: u64) -> (r: String)
    ensures
        r@ == relay_error_text(
            relay_failure_text(err.peer, err.operation, err.bytes as nat, err.source_text@),
            client_to_target_bytes as nat,
            target_to_client_bytes as nat,
        ),
{
    let mut out: Vec<char> = Vec::new();
    err.push_message(&mut out);
    extend_str(&mut out, "; totals client->target=");
    push_dec(&mut out, client_to_target_bytes);
    extend_str(&mut out, " bytes, target->client=");
    push_dec(&mut out, target_to_client_bytes);
    extend_str(&mut out, " bytes");
    from_chars(&out)
}

// ---------------------------------------------------------------------------
// One direction of a relay
// ---------------------------------------------------------------------------

/// One direction of a relay: reads from `read_peer`, writes to
/// `write_peer`, and counts the bytes written so far. The caller performs
/// the reads and writes and reports each outcome.
#[derive(Debug, Clone, Copy, PartialEq, Eq, Structural)]
pub struct RelayDirection {
    pub read_peer: RelayPeer,
    pub write_peer: RelayPeer,
    pub written: u64,
}

/// What to do after a read.
#[derive(Debug, Clone, Copy, PartialEq, Eq, Structural)]
pub enum RelayStep {
    /// The reader reached its end: the direction is done, with this total.
    Finished(u64),
    /// Write the first `n` bytes read.
    Forward(usize),
}

impl RelayDirection {
    /// A direction that has written nothing yet.
    pub fn new(read_peer: RelayPeer, write_peer: RelayPeer) -> (r: Self)
        ensures
            r == (RelayDirection { read_peer, write_peer, written: 0 }),
    {
        RelayDirection { read_peer, write_peer, written: 0 }
    }

    /// A read of `n` bytes: zero ends the direction, anything else is
    /// forwarded.
    pub fn after_read(&self, n: usize) -> (r: RelayStep)
        ensures
            n == 0 ==> r == RelayStep::Finished(self.written),
            n != 0 ==> r == RelayStep::Forward(n),
    {
        if n == 0 {
            RelayStep::Finished(self.written)
        } else {
            RelayStep::Forward(n)
        }
    }

    /// A completed write of `n` bytes.
    pub fn after_write(&mut self, n: usize)
        requires
            old(self).written + n <= u64::MAX,
        ensures
            final(self).written == old(self).written + n,
            final(self).read_peer == old(self).read_peer,
            final(self).write_peer == old(self).write_peer,
    {
        self.written = self.written + n as u64;
    }

    /// The error for a failed read: the reading side, after the bytes
    /// written so far.
    pub fn read_failed(&self, source: std::io::Error) -> (r: RelayIoError)
        ensures
            r.peer == self.read_peer,
            r.operation == RelayOperation::Read,
            r.bytes == self.written,
    {
        RelayIoError::new(self.read_peer, RelayOperation::Read, self.written, source)
    }

    /// The error for a failed write: the writing side, after the bytes
    /// written so far.
    pub fn write_failed(&self, source: std::io::Error) -> (r: RelayIoError)
        ensures
            r.peer == self.write_peer,
            r.operation == RelayOperation::Write,
            r.bytes == self.written,
    {
        RelayIoError::new(self.write_peer, RelayOperation::Write, self.written, source)
    }
}

// ---------------------------------------------------------------------------
// How a relayed session ends
// ---------------------------------------------------------------------------

/// The status and error text a finished session is recorded with.
#[derive(Debug, Clone, PartialEq, Eq)]
pub struct SessionFinish {
    pub status: String,
    pub error: Option<String>,
}

/// The record of a session's end: `terminated` with the management reason
/// when an administrator ended it, else `ok`, else `failed` with the error.
pub open spec fn finish_of(terminated: bool, error: Option<Seq<char>>) -> (Seq<char>, Option<Seq<char>>) {
    if terminated {
        ("terminated"@, Some(TERMINATED_BY_MANAGEMENT@))
    } else {
        match error {
            None => ("ok"@, None),
            Some(e) => ("failed"@, Some(e)),
        }
    }
}

/// How a relayed session is recorded once it ends; `error` is the text of
/// the failure, if it failed.
pub fn session_finish(terminated: bool, error: Option<&str>) -> (r: SessionFinish)
    ensures
        (r.status@, match r.error { Some(e) => Some(e@), None => None::<Seq<char>> }) == finish_of(
            terminated,
            match error { Some(e) => Some(e@), None => None::<Seq<char>> },
        ),
{
    if terminated {
        SessionFinish { status: "terminated".to_string(), error: Some(TERMINATED_BY_MANAGEMENT.to_string()) }
    } else {
        match error {
            None => SessionFinish { status: "ok".to_string(), error: None },
            Some(e) => SessionFinish { status: "failed".to_string(), error: Some(e.to_string()) },
        }
    }
}

} // verus!
