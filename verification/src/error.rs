use vstd::prelude::*;

verus! {

/// The ways in which the work of a session can fail.
#[derive(Debug, Clone, Copy, PartialEq, Eq, Structural)]
pub enum ErrorKind {
    /// No pool address could be had.
    Discovery,
    /// The pool's address could not be reached.
    Connect,
    /// A read or a write failed on an open connection.
    SessionIo,
    /// A job line that does not have exactly three fields.
    MalformedJob,
    /// A field of a job line that does not decode.
    FieldDecode,
}

/// How long to wait, in seconds, after each kind of failure.
#[derive(Debug, Clone, Copy, PartialEq, Eq, Structural)]
pub struct BackoffPolicy {
    pub discovery_secs: u64,
    pub connect_secs: u64,
    pub session_secs: u64,
}

impl BackoffPolicy {
    /// The delay in seconds after a failure of the given kind. A job line
    /// that is malformed, or a field that does not decode, costs no delay.
    pub open spec fn delay(self, kind: ErrorKind) -> u64 {
        match kind {
            ErrorKind::Discovery => self.discovery_secs,
            ErrorKind::Connect => self.connect_secs,
            ErrorKind::SessionIo => self.session_secs,
            ErrorKind::MalformedJob => 0,
            ErrorKind::FieldDecode => 0,
        }
    }

    /// Five seconds after a failed discovery, three after a failed connect,
    /// two after a lost session.
    pub fn fixed() -> (policy: BackoffPolicy)
        ensures
            policy == (BackoffPolicy { discovery_secs: 5, connect_secs: 3, session_secs: 2 }),
    {
        BackoffPolicy { discovery_secs: 5, connect_secs: 3, session_secs: 2 }
    }

    /// The delay in seconds after a failure of the given kind.
    pub fn delay_for(&self, kind: ErrorKind) -> (secs: u64)
        ensures
            secs == self.delay(kind),
    {
        match kind {
            ErrorKind::Discovery => self.discovery_secs,
            ErrorKind::Connect => self.connect_secs,
            ErrorKind::SessionIo => self.session_secs,
            ErrorKind::MalformedJob => 0,
            ErrorKind::FieldDecode => 0,
        }
    }
}

} // verus!
