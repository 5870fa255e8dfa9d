//! The decisions of the daemon's two loops and of reply delivery: what to do
//! after each clipboard read, each handled connection and each write.
use vstd::prelude::*;

use crate::history::{accepts, inserted, History};

verus! {

/// Consecutive failed clipboard reads after which the daemon stops.
pub const CLIPBOARD_FAILURE_LIMIT: u32 = 3;

/// Consecutive failed connections after which the request server stops,
/// and attempts made at writing one reply.
pub const STREAM_MAX_RETRIES: u32 = 5;

/// A count of consecutive failures, up to the limit at which they are fatal.
pub struct FailureStreak {
    count: u32,
    limit: u32,
}

impl FailureStreak {
    /// Failures since the last success.
    pub closed spec fn count(&self) -> nat {
        self.count as nat
    }

    /// The count at which failures are fatal.
    pub closed spec fn limit(&self) -> nat {
        self.limit as nat
    }

    #[verifier::type_invariant]
    spec fn within_limit(&self) -> bool {
        self.count <= self.limit
    }

    /// No failure yet.
    pub fn new(limit: u32) -> (r: FailureStreak)
        ensures
            r.count() == 0,
            r.limit() == limit,
    {
        FailureStreak { count: 0, limit }
    }

    /// A success ends the streak.
    pub fn record_success(&mut self)
        ensures
            final(self).count() == 0,
            final(self).limit() == old(self).limit(),
        no_unwind
    {
        self.count = 0;
    }

    /// A failure lengthens the streak; returns whether it has reached the
    /// limit.
    pub fn record_failure(&mut self) -> (fatal: bool)
        ensures
            fatal == (old(self).count() + 1 >= old(self).limit()),
            final(self).count() == if fatal {
                old(self).limit()
            } else {
                old(self).count() + 1
            },
            final(self).limit() == old(self).limit(),
        no_unwind
    {
        proof {
            use_type_invariant(&*self);
        }
        if self.limit == 0 || self.count >= self.limit - 1 {
            self.count = self.limit;
            true
        } else {
            self.count = self.count + 1;
            false
        }
    }

    /// Failures since the last success.
    pub fn failures(&self) -> (r: u32)
        ensures
            r == self.count(),
    {
        self.count
    }
}

/// What the clipboard loop does after a read.
#[derive(Clone, Copy, Debug, PartialEq, Eq)]
pub enum MonitorAction {
    /// Nothing new: wait for the next tick.
    Idle,
    /// The history changed: save it to the history file, then push it to
    /// the presentation process, whose absence is no failure.
    Publish,
    /// The read failed: set the clipboard to empty text and keep polling.
    Recover,
    /// Reads failed `CLIPBOARD_FAILURE_LIMIT` times in a row: stop the daemon.
    Abort,
}

/// The clipboard loop's state: the count of consecutive failed reads.
pub struct ClipboardMonitor {
    failures: FailureStreak,
}

impl ClipboardMonitor {
    #[verifier::type_invariant]
    spec fn limit_is_fixed(&self) -> bool {
        self.failures.limit() == CLIPBOARD_FAILURE_LIMIT
    }

    /// Consecutive failed reads so far.
    pub closed spec fn failed_reads(&self) -> nat {
        self.failures.count()
    }

    /// A monitor that has seen no failure.
    pub fn new() -> (r: ClipboardMonitor)
        ensures
            r.failed_reads() == 0,
    {
        ClipboardMonitor { failures: FailureStreak::new(CLIPBOARD_FAILURE_LIMIT) }
    }

    /// Takes the outcome of one clipboard read (`None` where it failed) and
    /// says what to do next. A successful read ends a run of failures and is
    /// offered to the history; the history is published exactly when it took
    /// the text. A failed read leaves the history alone, and the third in a
    /// row stops the daemon.
    pub fn on_read(&mut self, history: &mut History, read: Option<String>) -> (r: MonitorAction)
        ensures
            match read {
                Some(t) => {
                    &&& final(self).failed_reads() == 0
                    &&& final(history)@ == inserted(old(history)@, t@)
                    &&& r == if accepts(old(history)@, t@) {
                        MonitorAction::Publish
                    } else {
                        MonitorAction::Idle
                    }
                },
                None => {
                    &&& final(history)@ == old(history)@
                    &&& r == if old(self).failed_reads() + 1 >= CLIPBOARD_FAILURE_LIMIT {
                        MonitorAction::Abort
                    } else {
                        MonitorAction::Recover
                    }
                    &&& r == MonitorAction::Recover ==> final(self).failed_reads()
                        == old(self).failed_reads() + 1
                },
            },
    {
        proof {
            use_type_invariant(&*self);
        }
        match read {
            Some(text) => {
                self.failures.record_success();
                if history.insert(text) {
                    MonitorAction::Publish
                } else {
                    MonitorAction::Idle
                }
            },
            None => {
                if self.failures.record_failure() {
                    MonitorAction::Abort
                } else {
                    MonitorAction::Recover
                }
            },
        }
    }

    /// Consecutive failed reads so far.
    pub fn failures(&self) -> (r: u32)
        ensures
            r == self.failed_reads(),
    {
        self.failures.failures()
    }
}

/// What the request server does after handling a connection.
#[derive(Clone, Copy, Debug, PartialEq, Eq)]
pub enum ServerAction {
    /// The connection was handled: accept the next one.
    Continue,
    /// It failed: report it, wait briefly, then accept the next one.
    Backoff,
    /// Connections failed `STREAM_MAX_RETRIES` times in a row: stop.
    Abort,
}

/// The request server's state: the count of consecutive failed connections.
pub struct ServerMonitor {
    failures: FailureStreak,
}

impl ServerMonitor {
    #[verifier::type_invariant]
    spec fn limit_is_fixed(&self) -> bool {
        self.failures.limit() == STREAM_MAX_RETRIES
    }

    /// Consecutive failed connections so far.
    pub closed spec fn failed_connections(&self) -> nat {
        self.failures.count()
    }

    /// A server that has seen no failure.
    pub fn new() -> (r: ServerMonitor)
        ensures
            r.failed_connections() == 0,
    {
        ServerMonitor { failures: FailureStreak::new(STREAM_MAX_RETRIES) }
    }

    /// Takes whether a connection was handled without an I/O error (a bad
    /// request is handled) and says what to do next.
    pub fn on_connection(&mut self, handled: bool) -> (r: ServerAction)
        ensures
            handled ==> r == ServerAction::Continue && final(self).failed_connections() == 0,
            !handled ==> r == if old(self).failed_connections() + 1 >= STREAM_MAX_RETRIES {
                ServerAction::Abort
            } else {
                ServerAction::Backoff
            },
            r == ServerAction::Backoff ==> final(self).failed_connections()
                == old(self).failed_connections() + 1,
    {
        proof {
            use_type_invariant(&*self);
        }
        if handled {
            self.failures.record_success();
            ServerAction::Continue
        } else if self.failures.record_failure() {
            ServerAction::Abort
        } else {
            ServerAction::Backoff
        }
    }
}

/// What follows one attempt at writing a reply and closing its write side.
#[derive(Clone, Copy, Debug, PartialEq, Eq)]
pub enum DeliveryStep {
    /// The reply went out.
    Delivered,
    /// The attempt failed: wait, then write it again.
    Retry,
    /// `STREAM_MAX_RETRIES` attempts failed: report an error for this
    /// connection.
    GiveUp,
}

/// The attempts made at writing one reply.
pub struct Delivery {
    failures: FailureStreak,
}

impl Delivery {
    #[verifier::type_invariant]
    spec fn limit_is_fixed(&self) -> bool {
        self.failures.limit() == STREAM_MAX_RETRIES
    }

    /// Failed attempts so far.
    pub closed spec fn failed_attempts(&self) -> nat {
        self.failures.count()
    }

    /// No attempt made yet.
    pub fn new() -> (r: Delivery)
        ensures
            r.failed_attempts() == 0,
    {
        Delivery { failures: FailureStreak::new(STREAM_MAX_RETRIES) }
    }

    /// Takes whether an attempt succeeded and says what follows.
    pub fn on_attempt(&mut self, succeeded: bool) -> (r: DeliveryStep)
        ensures
            succeeded ==> r == DeliveryStep::Delivered,
            !succeeded ==> r == if old(self).failed_attempts() + 1 >= STREAM_MAX_RETRIES {
                DeliveryStep::GiveUp
            } else {
                DeliveryStep::Retry
            },
            r == DeliveryStep::Retry ==> final(self).failed_attempts() == old(
                self,
            ).failed_attempts() + 1,
    {
        proof {
            use_type_invariant(&*self);
        }
        if succeeded {
            DeliveryStep::Delivered
        } else if self.failures.record_failure() {
            DeliveryStep::GiveUp
        } else {
            DeliveryStep::Retry
        }
    }
}

} // verus!
