//! A child process handle, which reaps the child once and keeps its status.
use vstd::prelude::*;

use crate::error::{Error, EINTR};
use crate::status::{encode_state, is_termination_word, ExitStatus};
use crate::sys;

verus! {

/// Linux's `WNOHANG` flag of waitpid.
pub const WNOHANG: i32 = 1;

/// A child process and, once it has been reaped, its status.
#[derive(Debug)]
pub struct Process {
    pid: i32,
    status: Option<ExitStatus>,
}

/// The outcome that `Process::wait` allows, from the handle before the call
/// to the result and the handle after it.
pub open spec fn wait_post(pre: Process, r: Result<ExitStatus, Error>, post: Process) -> bool {
    &&& post.pid() == pre.pid()
    &&& match pre.cached() {
        Some(st) => r == Ok::<ExitStatus, Error>(st) && post == pre,
        None => match r {
            Ok(st) => post.cached() == Some(st) && is_termination_word(st.raw()),
            Err(e) => e is Os && post == pre,
        },
    }
}

/// The outcome that `Process::try_wait` allows.
pub open spec fn try_wait_post(pre: Process, r: Result<Option<ExitStatus>, Error>, post: Process) -> bool {
    &&& post.pid() == pre.pid()
    &&& match pre.cached() {
        Some(st) => r == Ok::<Option<ExitStatus>, Error>(Some(st)) && post == pre,
        None => match r {
            Ok(Some(st)) => post.cached() == Some(st) && is_termination_word(st.raw()),
            Ok(None) => post == pre,
            Err(e) => e is Os && post == pre,
        },
    }
}

/// The outcome that `Process::kill` allows.
pub open spec fn kill_post(pre: Process, r: Result<(), Error>, post: Process) -> bool {
    &&& post == pre
    &&& match pre.cached() {
        Some(_) => r == Err::<(), Error>(Error::AlreadyReaped),
        None => r matches Err(e) ==> e is Os,
    }
}

impl Process {
    /// The process id.
    pub closed spec fn pid(self) -> i32 {
        self.pid
    }

    /// The status, once a wait has reaped the process.
    pub closed spec fn cached(self) -> Option<ExitStatus> {
        self.status
    }

    /// A handle on the child with this id, not yet reaped.
    pub fn new(pid: i32) -> (r: Process)
        requires
            pid > 0,
        ensures
            r.pid() == pid,
            r.cached() is None,
    {
        Process { pid, status: None }
    }

    /// The process id.
    pub fn id(&self) -> (r: u32)
        ensures
            r == self.pid() as u32,
    {
        self.pid as u32
    }

    /// Sends SIGKILL to the process. Once its status has been reaped the pid
    /// may belong to another process, so that is refused.
    pub fn kill(&mut self) -> (r: Result<(), Error>)
        ensures
            kill_post(*old(self), r, *final(self)),
    {
        if self.status.is_some() {
            return Err(Error::AlreadyReaped);
        }
        let mut retries: u64 = u64::MAX;
        loop
            invariant
                self.status is None,
            decreases retries,
        {
            match sys::kill(self.pid) {
                Ok(()) => {
                    return Ok(());
                },
                Err(code) => {
                    if code == EINTR && retries > 0 {
                        retries = retries - 1;
                    } else {
                        return Err(Error::Os(code));
                    }
                },
            }
        }
    }

    /// Blocks until the process ends, and keeps its status; once the status
    /// is kept, gives it back without asking the system again. A stop or a
    /// resumption that the system reports is no end: the wait goes on.
    pub fn wait(&mut self) -> (r: Result<ExitStatus, Error>)
        ensures
            wait_post(*old(self), r, *final(self)),
    {
        if let Some(status) = self.status {
            return Ok(status);
        }
        let mut retries: u64 = u64::MAX;
        loop
            invariant
                self.status is None,
                *self == *old(self),
            decreases retries,
        {
            match sys::waitpid(self.pid, 0) {
                Ok(Some(state)) if state.ended() => {
                    let status = ExitStatus::from_state(state);
                    self.status = Some(status);
                    return Ok(status);
                },
                Ok(_) => {
                    if retries > 0 {
                        retries = retries - 1;
                    } else {
                        return Err(Error::Os(EINTR));
                    }
                },
                Err(code) => {
                    if code == EINTR && retries > 0 {
                        retries = retries - 1;
                    } else {
                        return Err(Error::Os(code));
                    }
                },
            }
        }
    }

    /// The status if the process has ended, without blocking; a status that
    /// it finds is kept as `wait` keeps it. A stop or a resumption is no end.
    pub fn try_wait(&mut self) -> (r: Result<Option<ExitStatus>, Error>)
        ensures
            try_wait_post(*old(self), r, *final(self)),
    {
        if let Some(status) = self.status {
            return Ok(Some(status));
        }
        match sys::waitpid(self.pid, WNOHANG) {
            Ok(Some(state)) => {
                if state.ended() {
                    let status = ExitStatus::from_state(state);
                    assert(state.encodable() && state.is_termination() && encode_state(state)
                        == status.raw());
                    self.status = Some(status);
                    Ok(Some(status))
                } else {
                    Ok(None)
                }
            },
            Ok(None) => Ok(None),
            Err(code) => Err(Error::Os(code)),
        }
    }
}

/// Once a wait has returned a status, a second wait returns that same status
/// and leaves the handle as it was, and so does a try_wait.
pub proof fn lemma_wait_idempotent(
    start: Process,
    first: Result<ExitStatus, Error>,
    waited: Process,
    second: Result<ExitStatus, Error>,
    again: Process,
    poll: Result<Option<ExitStatus>, Error>,
    polled: Process,
)
    requires
        wait_post(start, first, waited),
        first is Ok,
        wait_post(waited, second, again),
        try_wait_post(waited, poll, polled),
    ensures
        second == first,
        again == waited,
        poll == Ok::<Option<ExitStatus>, Error>(Some(first.unwrap())),
        polled == waited,
{
}

/// Once a wait has returned a status, kill refuses and signals nothing.
pub proof fn lemma_kill_after_wait(
    start: Process,
    first: Result<ExitStatus, Error>,
    waited: Process,
    killed: Result<(), Error>,
    after: Process,
)
    requires
        wait_post(start, first, waited),
        first is Ok,
        kill_post(waited, killed, after),
    ensures
        killed == Err::<(), Error>(Error::AlreadyReaped),
        after == waited,
{
}

} // verus!
