use vstd::prelude::*;

verus! {

/// Whether a host session is running or has just ended.
#[derive(Clone, Copy, Debug, PartialEq, Eq, Structural)]
pub enum SessionState {
    Running,
    SessionEnded,
}

/// The loop that keeps the command server alive across host disconnects: a session runs
/// until the transport reports an error or a close, and a new one is started at once.
pub struct CommandServerLoop {
    pub state: SessionState,
    /// Number of sessions started so far, saturating at `u64::MAX`.
    pub attempts: u64,
}

/// The loop as it starts: the first session running.
pub open spec fn initial_loop() -> CommandServerLoop {
    CommandServerLoop { state: SessionState::Running, attempts: 1 }
}

/// A session ended, however it ended; the count of sessions started is kept.
pub open spec fn end_step(s: CommandServerLoop) -> CommandServerLoop {
    CommandServerLoop { state: SessionState::SessionEnded, attempts: s.attempts }
}

/// A new session is started.
pub open spec fn restart_step(s: CommandServerLoop) -> CommandServerLoop {
    CommandServerLoop {
        state: SessionState::Running,
        attempts: if s.attempts < u64::MAX {
            (s.attempts + 1) as u64
        } else {
            s.attempts
        },
    }
}

/// The loop after `n` sessions have ended, each followed by its restart.
pub open spec fn after_failures(n: nat) -> CommandServerLoop
    decreases n,
{
    if n == 0 {
        initial_loop()
    } else {
        restart_step(end_step(after_failures((n - 1) as nat)))
    }
}

impl CommandServerLoop {
    /// The loop with its first session started.
    pub fn new() -> (s: CommandServerLoop)
        ensures
            s == initial_loop(),
    {
        CommandServerLoop { state: SessionState::Running, attempts: 1 }
    }

    pub fn state(&self) -> (r: SessionState)
        ensures
            r == self.state,
    {
        self.state
    }

    pub fn attempts(&self) -> (r: u64)
        ensures
            r == self.attempts,
    {
        self.attempts
    }

    /// The running session returned; what it returned is discarded.
    pub fn on_session_end(&mut self)
        requires
            old(self).state == SessionState::Running,
        ensures
            *final(self) == end_step(*old(self)),
    {
        self.state = SessionState::SessionEnded;
    }

    /// From an ended session the loop always starts the next one.
    pub fn restart(&mut self)
        requires
            old(self).state == SessionState::SessionEnded,
        ensures
            *final(self) == restart_step(*old(self)),
    {
        self.state = SessionState::Running;
        self.attempts = self.attempts.saturating_add(1);
    }
}

/// After `n` sessions have failed in a row, `n + 1` sessions have been started and the
/// loop is running the last of them.
pub proof fn lemma_reconnect_count(n: nat)
    requires
        n < u64::MAX,
    ensures
        after_failures(n) == (CommandServerLoop {
            state: SessionState::Running,
            attempts: (n + 1) as u64,
        }),
    decreases n,
{
    if n > 0 {
        lemma_reconnect_count((n - 1) as nat);
    }
}

} // verus!
