//! Running a command until it succeeds, a bounded number of times, with a
//! fixed delay after each failed attempt.

use vstd::prelude::*;
use vstd::string::to_string_from_display_ensures;
use crate::error::{prefixed, XmrError};

verus! {

#[derive(Clone, Copy, Debug, PartialEq, Eq, Structural)]
pub enum RetryAction {
    /// Run the command and report whether it succeeded.
    Run,
    /// Sleep this many milliseconds, then ask what comes next.
    Sleep { ms: u64 },
    Succeed,
    /// Every attempt failed.
    GiveUp,
}

#[derive(Clone, Copy, Debug, PartialEq, Eq, Structural)]
pub struct Retry {
    /// Failed attempts so far.
    pub attempt: usize,
    pub max_retries: usize,
    pub delay_ms: u64,
}

impl Retry {
    pub open spec fn wf(self) -> bool {
        self.attempt <= self.max_retries
    }

    /// A fresh retry budget, and its first action: run, unless no attempt is
    /// allowed at all.
    pub fn new(max_retries: usize, delay_ms: u64) -> (r: (Retry, RetryAction))
        ensures
            r.0 == (Retry { attempt: 0, max_retries, delay_ms }),
            r.0.wf(),
            r.1 == if max_retries > 0 {
                RetryAction::Run
            } else {
                RetryAction::GiveUp
            },
    {
        let r = Retry { attempt: 0, max_retries, delay_ms };
        (r, r.next())
    }

    /// After an attempt: success ends the retries; a failure is counted and
    /// followed by the delay.
    pub fn attempted(&mut self, succeeded: bool) -> (a: RetryAction)
        requires
            old(self).wf(),
            old(self).attempt < old(self).max_retries,
        ensures
            succeeded ==> *final(self) == *old(self) && a == RetryAction::Succeed,
            !succeeded ==> *final(self) == (Retry { attempt: (old(self).attempt + 1) as usize, ..*old(self) })
                && a == (RetryAction::Sleep { ms: old(self).delay_ms }),
            final(self).wf(),
    {
        if succeeded {
            RetryAction::Succeed
        } else {
            self.attempt = self.attempt + 1;
            RetryAction::Sleep { ms: self.delay_ms }
        }
    }

    /// After the delay: another attempt while the budget lasts.
    pub fn next(&self) -> (a: RetryAction)
        ensures
            a == if self.attempt < self.max_retries {
                RetryAction::Run
            } else {
                RetryAction::GiveUp
            },
    {
        if self.attempt < self.max_retries {
            RetryAction::Run
        } else {
            RetryAction::GiveUp
        }
    }
}

/// The error once every attempt of `cmd` has failed.
pub fn retry_error(cmd: &str, max_retries: usize) -> (r: XmrError)
    ensures
        r matches XmrError::ExecutionError(m) && exists|n: String|
            to_string_from_display_ensures(&max_retries, n) && m@ == "Command '"@ + cmd@ + "' failed after "@
                + n@ + " retries"@,
{
    let n = max_retries.to_string();
    let mut m = prefixed("Command '", cmd);
    m.append("' failed after ");
    m.append(n.as_str());
    m.append(" retries");
    assert(to_string_from_display_ensures(&max_retries, n));
    XmrError::ExecutionError(m)
}

} // verus!
