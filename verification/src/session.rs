//! The timed write loop as a state machine. The machine holds the payload
//! and the time budget; the caller owns the clock, the pipe and the sleeps,
//! polls the machine with the elapsed time before each attempt, and reports
//! each write's outcome back. The machine decides, and the decisions are
//! verified: a write is directed exactly while the budget is open, the
//! buffer handed out is always the configured payload, and a failed write
//! halts the run for good.

use vstd::prelude::*;

use crate::config::RunConfig;

verus! {

/// Where the run stands.
#[derive(Debug, Clone, Copy, PartialEq, Eq, Structural)]
pub enum SessionState {
    /// The budget is open and writes may still be directed.
    Running,
    /// The budget is exhausted; the run ended without error.
    Done,
    /// A write failed; the run ended early with an error.
    Aborted,
}

/// What the caller must do next.
#[derive(Debug, Clone, Copy, PartialEq, Eq, Structural)]
pub enum Directive {
    /// Write the full payload to the pipe, then sleep for the configured
    /// delay, then poll again.
    Write,
    /// The budget is exhausted: stop writing and exit successfully.
    Finish,
    /// A write failed: stop writing and exit with an error.
    Abort,
}

/// Builds the payload: `count` bytes, each equal to `byte_value`.
pub fn make_payload(count: usize, byte_value: u8) -> (r: Vec<u8>)
    ensures
        r@.len() == count as int,
        forall|i: int| 0 <= i < count as int ==> r@[i] == byte_value,
{
    let mut buf: Vec<u8> = Vec::new();
    let mut i: usize = 0;
    while i < count
        invariant
            i <= count,
            buf@.len() == i as int,
            forall|j: int| 0 <= j < i as int ==> buf@[j] == byte_value,
        decreases count - i,
    {
        buf.push(byte_value);
        i = i + 1;
    }
    buf
}

/// The write-loop state machine.
pub struct Session {
    /// Time budget in whole seconds.
    pub duration: u64,
    /// Pause between writes, in microseconds; the caller sleeps this long
    /// after each directed write.
    pub delay: u64,
    /// Bytes per write.
    pub count: usize,
    /// Fill value of every payload byte.
    pub byte_value: u8,
    /// The buffer written on each iteration.
    pub payload: Vec<u8>,
    /// Where the run stands.
    pub state: SessionState,
}

impl Session {
    /// The payload always holds exactly `count` bytes of `byte_value`.
    pub open spec fn wf(self) -> bool {
        &&& self.payload@.len() == self.count as int
        &&& forall|i: int| 0 <= i < self.payload@.len() ==> self.payload@[i] == self.byte_value
    }

    /// The directive a poll at `elapsed_secs` yields: while running, a write
    /// exactly when the elapsed whole seconds are under the budget; after a
    /// normal end, finish; after a failed write, abort.
    pub open spec fn directive_of(self, elapsed_secs: u64) -> Directive {
        match self.state {
            SessionState::Running => if elapsed_secs < self.duration {
                Directive::Write
            } else {
                Directive::Finish
            },
            SessionState::Done => Directive::Finish,
            SessionState::Aborted => Directive::Abort,
        }
    }

    /// The machine after a poll at `elapsed_secs`: a running machine whose
    /// budget is exhausted moves to `Done`; nothing else changes.
    pub open spec fn stepped(self, elapsed_secs: u64) -> Session {
        if self.state is Running && elapsed_secs >= self.duration {
            Session { state: SessionState::Done, ..self }
        } else {
            self
        }
    }

    /// The machine after a write's outcome is recorded: a failure moves it
    /// to `Aborted`; a success changes nothing.
    pub open spec fn recorded(self, ok: bool) -> Session {
        if ok {
            self
        } else {
            Session { state: SessionState::Aborted, ..self }
        }
    }

    /// Starts a run for the given configuration: the machine is running,
    /// and its payload is `count` bytes of `byte_value`.
    pub fn new(config: &RunConfig) -> (s: Session)
        requires
            config.wf(),
        ensures
            s.wf(),
            s.duration == config.duration,
            s.delay == config.delay,
            s.count == config.count as usize,
            s.byte_value == config.byte_value,
            s.state is Running,
    {
        let count = config.count as usize;
        let payload = make_payload(count, config.byte_value);
        Session {
            duration: config.duration,
            delay: config.delay,
            count,
            byte_value: config.byte_value,
            payload,
            state: SessionState::Running,
        }
    }

    /// Polls the machine with the elapsed whole seconds since the loop
    /// started and returns what to do next. The budget check happens here,
    /// before any write, so a budget of zero never directs a write.
    pub fn next(&mut self, elapsed_secs: u64) -> (d: Directive)
        requires
            old(self).wf(),
        ensures
            final(self).wf(),
            d == old(self).directive_of(elapsed_secs),
            *final(self) == old(self).stepped(elapsed_secs),
    {
        match self.state {
            SessionState::Running => {
                if elapsed_secs < self.duration {
                    Directive::Write
                } else {
                    self.state = SessionState::Done;
                    Directive::Finish
                }
            },
            SessionState::Done => Directive::Finish,
            SessionState::Aborted => Directive::Abort,
        }
    }

    /// Records the outcome of the write the last poll directed. A failure
    /// (short write, broken pipe, I/O error) is never retried: it halts the
    /// machine, and every later poll directs an abort.
    pub fn record_write(&mut self, ok: bool)
        requires
            old(self).wf(),
        ensures
            final(self).wf(),
            *final(self) == old(self).recorded(ok),
    {
        if !ok {
            self.state = SessionState::Aborted;
        }
    }

    /// Borrows the buffer to write: exactly `count` bytes of `byte_value`.
    pub fn payload(&self) -> (r: &Vec<u8>)
        requires
            self.wf(),
        ensures
            r@.len() == self.count as int,
            forall|i: int| 0 <= i < r@.len() ==> r@[i] == self.byte_value,
    {
        &self.payload
    }
}

/// Every buffer the machine directs to be written is exactly `count` bytes,
/// each equal to `byte_value`.
pub proof fn write_buffer_exact(s: Session, elapsed_secs: u64)
    requires
        s.wf(),
        s.directive_of(elapsed_secs) is Write,
    ensures
        s.payload@.len() == s.count as int,
        forall|i: int| 0 <= i < s.payload@.len() ==> s.payload@[i] == s.byte_value,
{
}

/// With a budget of zero seconds, no poll ever directs a write: the run
/// performs zero writes and ends at the first poll.
pub proof fn zero_duration_never_writes(s: Session, elapsed_secs: u64)
    requires
        s.duration == 0,
    ensures
        !(s.directive_of(elapsed_secs) is Write),
        s.state is Running ==> s.directive_of(elapsed_secs) is Finish,
{
}

/// A write is directed only while the machine is running and the elapsed
/// time is strictly under the budget; past the budget a running machine
/// finishes at once.
pub proof fn write_only_within_budget(s: Session, elapsed_secs: u64)
    requires
        s.directive_of(elapsed_secs) is Write,
    ensures
        s.state is Running,
        elapsed_secs < s.duration,
{
}

/// The instant the elapsed time reaches the budget, a running machine
/// directs a finish and settles in `Done`.
pub proof fn budget_exhausted_finishes(s: Session, elapsed_secs: u64)
    requires
        s.state is Running,
        elapsed_secs >= s.duration,
    ensures
        s.directive_of(elapsed_secs) is Finish,
        s.stepped(elapsed_secs).state is Done,
{
}

/// A failed write is terminal: after it is recorded, every poll, at every
/// elapsed time, directs an abort and never another write.
pub proof fn failed_write_never_writes_again(s: Session, elapsed_secs: u64)
    ensures
        s.recorded(false).directive_of(elapsed_secs) is Abort,
        !(s.recorded(false).directive_of(elapsed_secs) is Write),
{
}

/// A machine that has halted, normally or by abort, stays halted: polling
/// changes nothing and never directs a write.
pub proof fn halted_stays_halted(s: Session, elapsed_secs: u64)
    requires
        !(s.state is Running),
    ensures
        s.stepped(elapsed_secs) == s,
        !(s.directive_of(elapsed_secs) is Write),
{
}

} // verus!
