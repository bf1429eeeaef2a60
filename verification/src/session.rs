//! Session setup values and relay decisions.
//!
//! A session opens a pseudo-terminal sized to an initial `(columns,
//! rows)` pair, spawns the user's shell on the slave side, and runs
//! three relay threads: a reader that forwards child output, a writer
//! that drains the input channel, and a resize applier.  The threads and
//! the OS calls are I/O and live outside this library; what stands here
//! is everything they decide or compute: which shell to spawn, which
//! environment the child gets, how large the read buffer is, which part
//! of a read is forwarded, and when a read means the session is over.

use vstd::prelude::*;

verus! {

/// The fatal session-start failures.  Both are reported once to the
/// caller of `start` and never retried: a shell that cannot start will
/// not start on a silent retry either.  A session that did start ends
/// not through an error value but through channel closure.
#[derive(Clone, Copy, PartialEq, Eq, Structural, Debug)]
pub enum OsError {
    /// The OS could not allocate a pseudo-terminal pair.
    PtyAllocationFailed,
    /// The child shell could not be spawned on the slave side.
    SpawnFailed,
}

impl OsError {
    /// A fixed description of the failure, for reporting at session
    /// start.
    pub fn message(&self) -> (m: String)
        ensures
            *self is PtyAllocationFailed ==> m@ == "could not allocate a pseudo-terminal"@,
            *self is SpawnFailed ==> m@ == "could not spawn the shell"@,
    {
        match self {
            OsError::PtyAllocationFailed => "could not allocate a pseudo-terminal".to_owned(),
            OsError::SpawnFailed => "could not spawn the shell".to_owned(),
        }
    }
}

/// The shell used when no override is set: the POSIX shell path.
pub open spec fn default_shell() -> Seq<char> {
    "/bin/sh"@
}

/// Resolve the shell program: the environment override when one is set,
/// the platform default otherwise.  Reading the environment is the
/// caller's I/O; this function takes the override as a value.
pub fn resolve_shell(override_path: Option<String>) -> (r: String)
    ensures
        override_path matches Some(p) ==> r@ == p@,
        override_path is None ==> r@ == default_shell(),
{
    match override_path {
        Some(p) => p,
        None => "/bin/sh".to_owned(),
    }
}

/// The environment the child is configured with, so downstream programs
/// detect a capable terminal: a terminal-type variable indicating wide
/// color support and a truecolor-capability variable.
pub fn session_env() -> (v: Vec<(String, String)>)
    ensures
        v@.len() == 2,
        v@[0].0@ == "TERM"@,
        v@[0].1@ == "xterm-256color"@,
        v@[1].0@ == "COLORTERM"@,
        v@[1].1@ == "truecolor"@,
{
    let mut v: Vec<(String, String)> = Vec::new();
    v.push(("TERM".to_owned(), "xterm-256color".to_owned()));
    v.push(("COLORTERM".to_owned(), "truecolor".to_owned()));
    v
}

/// The reader's fixed buffer size in bytes.
pub const READ_BUFFER_LEN: usize = 4096;

/// A zeroed buffer of `READ_BUFFER_LEN` bytes for the reader's blocking
/// reads.
pub fn make_read_buffer() -> (b: Vec<u8>)
    ensures
        b@.len() == READ_BUFFER_LEN as int,
        forall|i: int| 0 <= i < b@.len() ==> b@[i] == 0u8,
{
    let mut b: Vec<u8> = Vec::new();
    let mut i: usize = 0;
    while i < READ_BUFFER_LEN
        invariant
            i <= READ_BUFFER_LEN,
            b@.len() == i as int,
            forall|j: int| 0 <= j < b@.len() ==> b@[j] == 0u8,
        decreases READ_BUFFER_LEN - i,
    {
        b.push(0);
        i = i + 1;
    }
    b
}

/// What one poll of the output channel observed: a chunk of child
/// output, nothing within the poll's bounded timeout, or a closed
/// channel.
#[derive(PartialEq, Eq, Debug)]
pub enum PollEvent {
    Chunk(Vec<u8>),
    TimedOut,
    Disconnected,
}

/// What the polling loop does next: hand bytes to the display surface,
/// keep polling, or stop because the session ended.
#[derive(PartialEq, Eq, Debug)]
pub enum UiStep {
    Display(Vec<u8>),
    KeepPolling,
    SessionEnded,
}

/// The polling loop's decision for one observation.  A chunk is
/// displayed, a timeout means simply poll again, and a closed channel
/// is the normal end of the session — never an application error.
pub fn poll_decision(e: PollEvent) -> (step: UiStep)
    ensures
        e matches PollEvent::Chunk(bytes) ==> (step matches UiStep::Display(shown) && shown@
            == bytes@),
        e is TimedOut ==> step is KeepPolling,
        e is Disconnected ==> step is SessionEnded,
{
    match e {
        PollEvent::Chunk(bytes) => UiStep::Display(bytes),
        PollEvent::TimedOut => UiStep::KeepPolling,
        PollEvent::Disconnected => UiStep::SessionEnded,
    }
}

/// One turn of the reader: a blocking read put `n` bytes at the front
/// of `buf`.  Returns the chunk to forward on the output channel —
/// a copy of exactly the bytes read — or `None` on a zero-length read,
/// which means the child closed its end and the session is over.
pub fn reader_step(buf: &Vec<u8>, n: usize) -> (r: Option<Vec<u8>>)
    requires
        n <= buf@.len(),
    ensures
        n == 0 ==> r is None,
        n > 0 ==> (r matches Some(c) && c@ == buf@.subrange(0, n as int)),
{
    if n == 0 {
        None
    } else {
        let mut c: Vec<u8> = Vec::new();
        let mut i: usize = 0;
        while i < n
            invariant
                i <= n,
                n <= buf@.len(),
                c@ == buf@.subrange(0, i as int),
            decreases n - i,
        {
            let byte = buf[i];
            c.push(byte);
            proof {
                assert(c@ =~= buf@.subrange(0, i as int + 1));
            }
            i = i + 1;
        }
        Some(c)
    }
}

} // verus!
