//! The handle on a spawned child and on the parent's ends of its standard streams.
use vstd::prelude::*;

use crate::error::{Error, EINTR};
use crate::anon_pipe::{read2, AnonPipe};
use crate::process::{kill_post, try_wait_post, wait_post, Process};
use crate::status::{is_termination_word, ExitStatus};
use crate::output::Output;
use crate::stdio::StdioPipes;

verus! {

/// The parent's end of the child's standard input.
pub struct ChildStdin(AnonPipe);

/// The parent's end of the child's standard output.
pub struct ChildStdout(AnonPipe);

/// The parent's end of the child's standard error.
pub struct ChildStderr(AnonPipe);

/// A running child: its process handle and the parent's ends of the pipes
/// that were asked for.
pub struct Child {
    handle: Process,
    /// The child's standard input, where a pipe was asked for.
    pub stdin: Option<ChildStdin>,
    /// The child's standard output, where a pipe was asked for.
    pub stdout: Option<ChildStdout>,
    /// The child's standard error, where a pipe was asked for.
    pub stderr: Option<ChildStderr>,
}

/// What one write asks of a loop that writes a whole buffer.
#[derive(PartialEq, Eq, Structural, Clone, Copy, Debug)]
pub enum WriteStep {
    /// The write took this many bytes: go on after them.
    Advance(usize),
    /// The write was interrupted and may be tried again.
    Retry,
    /// The loop ends with this error.
    Fail(Error),
}

pub open spec fn write_step_of(res: Result<usize, Error>, may_retry: bool) -> WriteStep {
    match res {
        Ok(n) => if n == 0 {
            WriteStep::Fail(Error::ShortWrite)
        } else {
            WriteStep::Advance(n)
        },
        Err(e) => if e == Error::Os(EINTR) && may_retry {
            WriteStep::Retry
        } else {
            WriteStep::Fail(e)
        },
    }
}

/// What one write asks of a loop that writes a whole buffer: a write that
/// takes nothing is a `ShortWrite`, an interrupted one is retried while
/// retries are left, any other failure ends the loop.
pub fn write_step(res: Result<usize, Error>, may_retry: bool) -> (r: WriteStep)
    ensures
        r == write_step_of(res, may_retry),
{
    match res {
        Ok(n) => if n == 0 {
            WriteStep::Fail(Error::ShortWrite)
        } else {
            WriteStep::Advance(n)
        },
        Err(e) => if e == Error::Os(EINTR) && may_retry {
            WriteStep::Retry
        } else {
            WriteStep::Fail(e)
        },
    }
}

/// Writes the whole of `buf` to the pipe, in as many writes as it needs,
/// each one handed the part of `buf` that no earlier write took; see
/// `write_step` for what each write's result leads to. Interrupted writes
/// are retried up to `u64::MAX` times.
pub fn write_all(p: &AnonPipe, buf: &[u8]) -> (r: Result<(), Error>)
    ensures
        r matches Err(e) ==> e is Os || e is ShortWrite,
        buf@.len() == 0 ==> r is Ok,
{
    let mut off: usize = 0;
    let mut retries: u64 = u64::MAX;
    while off < buf.len()
        invariant
            off <= buf@.len(),
        decreases buf@.len() - off, retries,
    {
        let rest = vstd::slice::slice_subrange(buf, off, buf.len());
        match write_step(p.write(rest), retries > 0) {
            WriteStep::Advance(n) => {
                off = off + n;
            },
            WriteStep::Retry => {
                retries = retries - 1;
            },
            WriteStep::Fail(e) => {
                return Err(e);
            },
        }
    }
    Ok(())
}

impl ChildStdin {
    /// Writes at most `buf.len()` bytes and says how many were taken.
    pub fn write(&mut self, buf: &[u8]) -> (r: Result<usize, Error>)
        ensures
            r matches Ok(n) ==> n <= buf@.len(),
            r matches Err(e) ==> e is Os,
    {
        self.0.write(buf)
    }

    /// Writes from the buffers in turn.
    pub fn write_vectored(&mut self, bufs: &[std::io::IoSlice<'_>]) -> (r: Result<usize, Error>)
        ensures
            r matches Err(e) ==> e is Os,
    {
        self.0.write_vectored(bufs)
    }

    /// Nothing is buffered: there is nothing to flush.
    pub fn flush(&mut self) -> (r: Result<(), Error>)
        ensures
            r is Ok,
    {
        Ok(())
    }

    /// Writes the whole of `buf`; see `write_all`.
    pub fn write_all(&mut self, buf: &[u8]) -> (r: Result<(), Error>)
        ensures
            r matches Err(e) ==> e is Os || e is ShortWrite,
    {
        write_all(&self.0, buf)
    }

    /// The descriptor number of the pipe.
    pub fn as_raw_fd(&self) -> (r: i32) {
        self.0.as_raw_fd()
    }
}

impl ChildStdout {
    /// Reads at most `buf.len()` bytes into the start of `buf`.
    pub fn read(&mut self, buf: &mut [u8]) -> (r: Result<usize, Error>)
        ensures
            final(buf)@.len() == old(buf)@.len(),
            r matches Ok(n) ==> n <= old(buf)@.len(),
            r matches Err(e) ==> e is Os,
    {
        self.0.read(buf)
    }

    /// Reads into the buffers in turn.
    pub fn read_vectored(&mut self, bufs: &mut [std::io::IoSliceMut<'_>]) -> (r: Result<usize, Error>)
        ensures
            r matches Err(e) ==> e is Os,
    {
        self.0.read_vectored(bufs)
    }

    /// Reads until end of file and appends what it read to `buf`.
    pub fn read_to_end(&mut self, buf: &mut Vec<u8>) -> (r: Result<usize, Error>)
        ensures
            old(buf)@.is_prefix_of(final(buf)@),
            r matches Ok(n) ==> final(buf)@.len() == old(buf)@.len() + n,
            r matches Err(e) ==> e is Os,
    {
        self.0.read_to_end(buf)
    }

    /// Writes to the pipe; on this end, which reads, the system refuses.
    pub fn write(&mut self, buf: &[u8]) -> (r: Result<usize, Error>)
        ensures
            r matches Ok(n) ==> n <= buf@.len(),
            r matches Err(e) ==> e is Os,
    {
        self.0.write(buf)
    }

    /// Writes the whole of `buf`; see `write_all`.
    pub fn write_all(&mut self, buf: &[u8]) -> (r: Result<(), Error>)
        ensures
            r matches Err(e) ==> e is Os || e is ShortWrite,
    {
        write_all(&self.0, buf)
    }

    /// The descriptor number of the pipe.
    pub fn as_raw_fd(&self) -> (r: i32) {
        self.0.as_raw_fd()
    }
}

impl ChildStderr {
    /// Reads at most `buf.len()` bytes into the start of `buf`.
    pub fn read(&mut self, buf: &mut [u8]) -> (r: Result<usize, Error>)
        ensures
            final(buf)@.len() == old(buf)@.len(),
            r matches Ok(n) ==> n <= old(buf)@.len(),
            r matches Err(e) ==> e is Os,
    {
        self.0.read(buf)
    }

    /// Reads into the buffers in turn.
    pub fn read_vectored(&mut self, bufs: &mut [std::io::IoSliceMut<'_>]) -> (r: Result<usize, Error>)
        ensures
            r matches Err(e) ==> e is Os,
    {
        self.0.read_vectored(bufs)
    }

    /// Reads until end of file and appends what it read to `buf`.
    pub fn read_to_end(&mut self, buf: &mut Vec<u8>) -> (r: Result<usize, Error>)
        ensures
            old(buf)@.is_prefix_of(final(buf)@),
            r matches Ok(n) ==> final(buf)@.len() == old(buf)@.len() + n,
            r matches Err(e) ==> e is Os,
    {
        self.0.read_to_end(buf)
    }

    /// Writes to the pipe; on this end, which reads, the system refuses.
    pub fn write(&mut self, buf: &[u8]) -> (r: Result<usize, Error>)
        ensures
            r matches Ok(n) ==> n <= buf@.len(),
            r matches Err(e) ==> e is Os,
    {
        self.0.write(buf)
    }

    /// Writes the whole of `buf`; see `write_all`.
    pub fn write_all(&mut self, buf: &[u8]) -> (r: Result<(), Error>)
        ensures
            r matches Err(e) ==> e is Os || e is ShortWrite,
    {
        write_all(&self.0, buf)
    }

    /// The descriptor number of the pipe.
    pub fn as_raw_fd(&self) -> (r: i32) {
        self.0.as_raw_fd()
    }
}

impl Child {
    /// The process handle.
    pub closed spec fn process(&self) -> Process {
        self.handle
    }

    /// Whether the parent holds a pipe to the child's standard input.
    pub closed spec fn has_stdin(&self) -> bool {
        self.stdin is Some
    }

    /// Whether the parent holds a pipe from the child's standard output.
    pub closed spec fn has_stdout(&self) -> bool {
        self.stdout is Some
    }

    /// Whether the parent holds a pipe from the child's standard error.
    pub closed spec fn has_stderr(&self) -> bool {
        self.stderr is Some
    }

    /// A child from its process handle and the parent's pipe ends.
    pub fn new(handle: Process, stdio: StdioPipes) -> (r: Child)
        ensures
            r.process() == handle,
            r.has_stdin() <==> stdio.stdin is Some,
            r.has_stdout() <==> stdio.stdout is Some,
            r.has_stderr() <==> stdio.stderr is Some,
    {
        Child {
            handle,
            stdin: match stdio.stdin {
                Some(p) => Some(ChildStdin(p)),
                None => None,
            },
            stdout: match stdio.stdout {
                Some(p) => Some(ChildStdout(p)),
                None => None,
            },
            stderr: match stdio.stderr {
                Some(p) => Some(ChildStderr(p)),
                None => None,
            },
        }
    }

    /// Sends SIGKILL to the child, unless it has been reaped.
    pub fn kill(&mut self) -> (r: Result<(), Error>)
        ensures
            kill_post(old(self).process(), r, final(self).process()),
    {
        self.handle.kill()
    }

    /// The child's process id.
    pub fn id(&self) -> (r: u32)
        ensures
            r == self.process().pid() as u32,
    {
        self.handle.id()
    }

    /// Closes the child's standard input, so that a child that reads it
    /// cannot keep the wait from ending, then waits for the child to end.
    pub fn wait(&mut self) -> (r: Result<ExitStatus, Error>)
        ensures
            !final(self).has_stdin(),
            final(self).has_stdout() == old(self).has_stdout(),
            final(self).has_stderr() == old(self).has_stderr(),
            wait_post(old(self).process(), r, final(self).process()),
    {
        self.stdin = None;
        self.handle.wait()
    }

    /// The child's status if it has ended, without blocking.
    pub fn try_wait(&mut self) -> (r: Result<Option<ExitStatus>, Error>)
        ensures
            try_wait_post(old(self).process(), r, final(self).process()),
    {
        self.handle.try_wait()
    }

    /// Closes the child's standard input, reads its output streams that are
    /// pipes to their end (both at once where both are), then waits for it.
    /// A stream that is no pipe gives no bytes.
    pub fn wait_with_output(self) -> (r: Result<Output, Error>)
        ensures
            r matches Ok(out) ==> {
                &&& !self.has_stdout() ==> out.stdout@.len() == 0
                &&& !self.has_stderr() ==> out.stderr@.len() == 0
                &&& self.process().cached() matches Some(st) ==> out.status == st
                &&& self.process().cached() is None ==> is_termination_word(out.status.raw())
            },
            self.process().cached() is Some && !self.has_stdout() && !self.has_stderr() ==> r is Ok,
            r matches Err(e) ==> e is Os,
    {
        let mut me = self;
        me.stdin = None;
        let mut stdout: Vec<u8> = Vec::new();
        let mut stderr: Vec<u8> = Vec::new();
        let out = me.stdout.take();
        let err = me.stderr.take();
        match (out, err) {
            (None, None) => {},
            (Some(mut o), None) => {
                o.read_to_end(&mut stdout)?;
            },
            (None, Some(mut e)) => {
                e.read_to_end(&mut stderr)?;
            },
            (Some(o), Some(e)) => {
                read2(o.0, &mut stdout, e.0, &mut stderr)?;
            },
        }
        let status = me.handle.wait()?;
        Ok(Output { status, stdout, stderr })
    }
}

} // verus!
