//! The supervisor slot: the process-wide record of the sidecar lifecycle.
//!
//! At most one child process is held at a time, identified to the host by
//! its OS process id; beside it sits the server port, fixed at a configured
//! default. The host reports what happened (spawned, spawn failed, became
//! ready, timed out) and asks the slot what to kill on shutdown; the slot
//! decides what is held in each phase.

use vstd::prelude::*;

verus! {

/// Port the sidecar server listens on; fixed for the process lifetime.
pub const DEFAULT_PORT: u16 = 5173;

/// Lifecycle phase of the supervised sidecar.
#[derive(Clone, Copy, PartialEq, Eq, Structural, Debug)]
pub enum Phase {
    NotStarted,
    Starting,
    Ready,
    Failed,
    Stopped,
}

/// Why a start attempt failed. Neither failure is fatal to the host: it
/// logs the message and continues without the sidecar.
pub enum StartError {
    /// The child process could not be created; carries the OS error text.
    Spawn(String),
    /// The child never answered the health check within the readiness
    /// budget.
    Timeout,
}

/// Prefix of the message logged for a failed spawn.
pub open spec fn spawn_error_prefix() -> Seq<char> {
    "Failed to start Node server: "@
}

/// Message logged for a readiness timeout.
pub open spec fn timeout_message() -> Seq<char> {
    "Node server did not become ready within 15 seconds"@
}

impl StartError {
    /// The message the host logs for this error.
    pub open spec fn message_spec(&self) -> Seq<char> {
        match self {
            StartError::Spawn(e) => spawn_error_prefix() + e@,
            StartError::Timeout => timeout_message(),
        }
    }

    /// Render the message the host logs.
    pub fn message(&self) -> (r: String)
        ensures
            r@ == self.message_spec(),
    {
        match self {
            StartError::Spawn(e) => {
                let mut r = String::from_str("Failed to start Node server: ");
                r.append(e.as_str());
                r
            },
            StartError::Timeout => String::from_str(
                "Node server did not become ready within 15 seconds",
            ),
        }
    }
}

/// The supervisor slot: at most one supervised child process and the server
/// port.
pub struct Supervisor {
    pub phase: Phase,
    /// OS process id of the supervised child, if one is held.
    pub child_pid: Option<u32>,
    pub port: u16,
}

/// What a stop does to the slot: with a child held, the slot is cleared
/// and moves to `Stopped`, handing back the process id to kill; with
/// nothing held it is a no-op and hands back nothing.
pub open spec fn stop_transition(s: Supervisor) -> (Supervisor, Option<u32>) {
    if s.child_pid is Some {
        (Supervisor { phase: Phase::Stopped, child_pid: None, ..s }, s.child_pid)
    } else {
        (s, None)
    }
}

impl Supervisor {
    /// A child is held exactly while one was spawned and not yet
    /// stopped; after a timeout (`Failed` with a held child) it stays
    /// held so that shutdown still kills it.
    pub open spec fn wf(&self) -> bool {
        &&& self.phase is NotStarted ==> self.child_pid is None
        &&& self.phase is Starting ==> self.child_pid is Some
        &&& self.phase is Ready ==> self.child_pid is Some
        &&& self.phase is Stopped ==> self.child_pid is None
    }

    /// A fresh slot: nothing held, the default port stored.
    pub fn new() -> (r: Self)
        ensures
            r.wf(),
            r.phase is NotStarted,
            r.child_pid is None,
            r.port == DEFAULT_PORT,
    {
        Supervisor { phase: Phase::NotStarted, child_pid: None, port: DEFAULT_PORT }
    }

    /// The stored port: the configured default until a start confirms it,
    /// and the same value afterwards. This is the front-end's query.
    pub fn get_server_port(&self) -> (r: u16)
        ensures
            r == self.port,
    {
        self.port
    }

    /// Record a successful spawn: the slot now holds the child.
    pub fn record_spawned(&mut self, pid: u32)
        requires
            old(self).wf(),
            old(self).phase is NotStarted,
        ensures
            final(self).wf(),
            final(self).phase is Starting,
            final(self).child_pid == Some(pid),
            final(self).port == old(self).port,
    {
        self.phase = Phase::Starting;
        self.child_pid = Some(pid);
    }

    /// Record that the child could not be created. No handle is ever
    /// held for a failed spawn; the returned error carries the OS error
    /// text.
    pub fn record_spawn_failure(&mut self, os_error: String) -> (r: StartError)
        requires
            old(self).wf(),
            old(self).phase is NotStarted,
        ensures
            final(self).wf(),
            final(self).phase is Failed,
            final(self).child_pid is None,
            final(self).port == old(self).port,
            r == StartError::Spawn(os_error),
    {
        self.phase = Phase::Failed;
        StartError::Spawn(os_error)
    }

    /// Record that a health probe succeeded: the sidecar is ready, the slot
    /// holds exactly one live child and the confirmed port, and that port
    /// is returned.
    pub fn record_ready(&mut self) -> (r: u16)
        requires
            old(self).wf(),
            old(self).phase is Starting,
        ensures
            final(self).wf(),
            final(self).phase is Ready,
            final(self).child_pid == old(self).child_pid,
            final(self).child_pid is Some,
            final(self).port == old(self).port,
            r == old(self).port,
    {
        self.phase = Phase::Ready;
        self.port
    }

    /// Record that the readiness budget ran out. The spawned child stays
    /// held, so shutdown still kills it.
    pub fn record_timeout(&mut self) -> (r: StartError)
        requires
            old(self).wf(),
            old(self).phase is Starting,
        ensures
            final(self).wf(),
            final(self).phase is Failed,
            final(self).child_pid == old(self).child_pid,
            final(self).port == old(self).port,
            r is Timeout,
    {
        self.phase = Phase::Failed;
        StartError::Timeout
    }

    /// Stop the sidecar: clear the slot and hand the held process id, if
    /// any, back to the host, which kills the process and waits for its
    /// exit. With nothing held this is a no-op, so a second stop is safe
    /// and has no effect.
    pub fn stop(&mut self) -> (r: Option<u32>)
        requires
            old(self).wf(),
        ensures
            final(self).wf(),
            *final(self) == stop_transition(*old(self)).0,
            r == stop_transition(*old(self)).1,
            final(self).child_pid is None,
            final(self).port == old(self).port,
            r == old(self).child_pid,
    {
        match self.child_pid {
            Some(pid) => {
                self.child_pid = None;
                self.phase = Phase::Stopped;
                Some(pid)
            },
            None => None,
        }
    }
}

/// Stopping twice is safe: after one stop nothing is held, so a second
/// stop leaves the slot exactly as it was and yields no process to kill.
pub proof fn lemma_stop_idempotent(s: Supervisor)
    ensures
        stop_transition(stop_transition(s).0).0 == stop_transition(s).0,
        stop_transition(stop_transition(s).0).1 is None,
{
}

} // verus!
