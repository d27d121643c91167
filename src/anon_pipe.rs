//! Anonymous pipes, and the drain that collects the output of two pipes at
//! once, so that a child that fills one of them while the parent waits on the
//! other cannot stall both.
use vstd::prelude::*;

use crate::error::{Error, EAGAIN, EINTR};
use crate::file_desc::FileDesc;
use crate::sys;

verus! {

/// Linux's `O_CLOEXEC` flag.
pub const O_CLOEXEC: i32 = 0o2000000;

/// One end of an anonymous pipe.
pub struct AnonPipe {
    fd: FileDesc,
    reads: Ghost<bool>,
    other: Ghost<i32>,
}

/// A fresh pipe, read end first, with both ends closed on exec from the
/// moment they exist.
pub fn anon_pipe() -> (r: Result<(AnonPipe, AnonPipe), Error>)
    ensures
        r matches Ok((rd, wr)) ==> {
            &&& rd.raw() >= 0 && wr.raw() >= 0 && rd.raw() != wr.raw()
            &&& rd.is_read_end() && !wr.is_read_end()
            &&& rd.other_end() == wr.raw() && wr.other_end() == rd.raw()
        },
        r matches Err(e) ==> e is Os,
{
    match sys::pipe2(O_CLOEXEC) {
        Ok((rd, wr)) => Ok(
            (
                AnonPipe { fd: FileDesc::new(rd), reads: Ghost(true), other: Ghost(wr) },
                AnonPipe { fd: FileDesc::new(wr), reads: Ghost(false), other: Ghost(rd) },
            ),
        ),
        Err(code) => Err(Error::Os(code)),
    }
}

impl AnonPipe {
    /// The descriptor number of this end.
    pub closed spec fn raw(&self) -> i32 {
        self.fd.raw()
    }

    /// The descriptor number that the other end of the same pipe had when
    /// the pipe was made.
    pub closed spec fn other_end(&self) -> i32 {
        self.other@
    }

    /// Whether this is the end that reads.
    pub closed spec fn is_read_end(&self) -> bool {
        self.reads@
    }

    pub fn as_raw_fd(&self) -> (r: i32)
        ensures
            r == self.raw(),
    {
        self.fd.as_raw_fd()
    }

    /// Reads at most `buf.len()` bytes into the start of `buf`.
    pub fn read(&self, buf: &mut [u8]) -> (r: Result<usize, Error>)
        ensures
            final(buf)@.len() == old(buf)@.len(),
            r matches Ok(n) ==> n <= old(buf)@.len(),
            r matches Err(e) ==> e is Os,
    {
        self.fd.read(buf)
    }

    /// Writes at most `buf.len()` bytes and says how many were taken.
    pub fn write(&self, buf: &[u8]) -> (r: Result<usize, Error>)
        ensures
            r matches Ok(n) ==> n <= buf@.len(),
            r matches Err(e) ==> e is Os,
    {
        self.fd.write(buf)
    }

    /// Reads into the buffers in turn.
    pub fn read_vectored(&self, bufs: &mut [std::io::IoSliceMut<'_>]) -> (r: Result<usize, Error>)
        ensures
            r matches Err(e) ==> e is Os,
    {
        self.fd.read_vectored(bufs)
    }

    /// Vectored reads are supported.
    pub fn is_read_vectored(&self) -> (r: bool)
        ensures
            r,
    {
        self.fd.is_read_vectored()
    }

    /// Writes from the buffers in turn.
    pub fn write_vectored(&self, bufs: &[std::io::IoSlice<'_>]) -> (r: Result<usize, Error>)
        ensures
            r matches Err(e) ==> e is Os,
    {
        self.fd.write_vectored(bufs)
    }

    /// Vectored writes are supported.
    pub fn is_write_vectored(&self) -> (r: bool)
        ensures
            r,
    {
        self.fd.is_write_vectored()
    }

    /// Turns nonblocking mode on or off.
    pub fn set_nonblocking(&self, nonblocking: bool) -> (r: Result<(), Error>)
        ensures
            r matches Err(e) ==> e is Os,
    {
        self.fd.set_nonblocking(nonblocking)
    }

    /// Reads until end of file and appends what it read to `buf`.
    pub fn read_to_end(&self, buf: &mut Vec<u8>) -> (r: Result<usize, Error>)
        ensures
            old(buf)@.is_prefix_of(final(buf)@),
            r matches Ok(n) ==> final(buf)@.len() == old(buf)@.len() + n,
            r matches Err(e) ==> e is Os,
    {
        self.fd.read_to_end(buf)
    }

    /// The descriptor that this end holds.
    pub closed spec fn file_desc(&self) -> FileDesc {
        self.fd
    }

    /// The descriptor that this end holds.
    pub fn into_file_desc(self) -> (r: FileDesc)
        ensures
            r == self.file_desc(),
            r.raw() == self.raw(),
    {
        self.fd
    }
}

/// What a wake-up of the readiness wait asks of the drain.
#[derive(PartialEq, Eq, Structural, Clone, Copy, Debug)]
pub enum PollStep {
    /// The wait was interrupted: wait again.
    Retry,
    /// The wait failed.
    Fail(Error),
    /// Which of the two pipes reported events.
    Ready(bool, bool),
}

pub open spec fn poll_step_of(res: Result<(i16, i16), i32>) -> PollStep {
    match res {
        Ok((ev1, ev2)) => PollStep::Ready(ev1 != 0, ev2 != 0),
        Err(code) => if code == EINTR {
            PollStep::Retry
        } else {
            PollStep::Fail(Error::Os(code))
        },
    }
}

/// What a wake-up asks of the drain: read each pipe that reported events,
/// wait again after an interruption, and stop on any other failure.
pub fn poll_step(res: Result<(i16, i16), i32>) -> (r: PollStep)
    ensures
        r == poll_step_of(res),
{
    match res {
        Ok((ev1, ev2)) => PollStep::Ready(ev1 != 0, ev2 != 0),
        Err(code) => if code == EINTR {
            PollStep::Retry
        } else {
            PollStep::Fail(Error::Os(code))
        },
    }
}

/// What reading a nonblocking pipe as far as it goes asks of the drain.
#[derive(PartialEq, Eq, Structural, Clone, Copy, Debug)]
pub enum DrainStep {
    /// The pipe reached end of file: read the other one to its end.
    Ended,
    /// The pipe has nothing more for the moment: wait again.
    Pending,
    /// The read failed.
    Fail(Error),
}

pub open spec fn drain_step_of(res: Result<usize, Error>) -> DrainStep {
    match res {
        Ok(_) => DrainStep::Ended,
        Err(e) => if e == Error::Os(EAGAIN) {
            DrainStep::Pending
        } else {
            DrainStep::Fail(e)
        },
    }
}

/// What a read to end of file on a nonblocking pipe asks of the drain: its
/// end where it succeeded, more waiting where it would block (`EAGAIN`, which
/// is also Linux's `EWOULDBLOCK`), and a stop on any other failure.
pub fn drain_step(res: Result<usize, Error>) -> (r: DrainStep)
    ensures
        r == drain_step_of(res),
{
    match res {
        Ok(_) => DrainStep::Ended,
        Err(e) => if e == Error::Os(EAGAIN) {
            DrainStep::Pending
        } else {
            DrainStep::Fail(e)
        },
    }
}

proof fn lemma_prefix_trans(a: Seq<u8>, b: Seq<u8>, c: Seq<u8>)
    requires
        a.is_prefix_of(b),
        b.is_prefix_of(c),
    ensures
        a.is_prefix_of(c),
{
    assert forall|k: int| 0 <= k < a.len() implies a[k] == c[k] by {
        assert(a[k] == b[k]);
    }
}

/// Reads both pipes to end of file, appending to `v1` and `v2`. Both pipes
/// are read without blocking while neither has ended; `poll_step` and
/// `drain_step` decide what each wake-up and each read leads to. Once one
/// pipe has ended, the other is put back in blocking mode and read to its end. Gives up with `EAGAIN`
/// after `u64::MAX` wake-ups that brought no data.
pub fn read2(p1: AnonPipe, v1: &mut Vec<u8>, p2: AnonPipe, v2: &mut Vec<u8>) -> (r: Result<(), Error>)
    ensures
        old(v1)@.is_prefix_of(final(v1)@),
        old(v2)@.is_prefix_of(final(v2)@),
        r matches Err(e) ==> e is Os,
{
    assert(old(v1)@.is_prefix_of(v1@));
    assert(old(v2)@.is_prefix_of(v2@));
    p1.set_nonblocking(true)?;
    p2.set_nonblocking(true)?;
    let fd1 = p1.as_raw_fd();
    let fd2 = p2.as_raw_fd();
    let mut idle: u64 = u64::MAX;
    let _ = v1.len();
    let _ = v2.len();
    loop
        invariant
            old(v1)@.is_prefix_of(v1@),
            old(v2)@.is_prefix_of(v2@),
            v1@.len() <= usize::MAX,
            v2@.len() <= usize::MAX,
        decreases (usize::MAX - v1@.len()) + (usize::MAX - v2@.len()), idle,
    {
        let l1 = v1.len();
        let l2 = v2.len();
        let ghost s1 = v1@;
        let ghost s2 = v2@;
        let (ready1, ready2) = match poll_step(sys::poll_in2(fd1, fd2)) {
            PollStep::Ready(a, b) => (a, b),
            PollStep::Retry => (false, false),
            PollStep::Fail(e) => {
                return Err(e);
            },
        };
        if ready1 {
            let res = p1.read_to_end(v1);
            proof { lemma_prefix_trans(old(v1)@, s1, v1@); }
            match drain_step(res) {
                DrainStep::Ended => {
                    let ghost u2 = v2@;
                    p2.set_nonblocking(false)?;
                    let res = p2.read_to_end(v2);
                    proof { lemma_prefix_trans(old(v2)@, u2, v2@); }
                    return match res {
                        Ok(_) => Ok(()),
                        Err(e) => Err(e),
                    };
                },
                DrainStep::Pending => {},
                DrainStep::Fail(e) => {
                    return Err(e);
                },
            }
        }
        assert(s1.is_prefix_of(v1@));
        if ready2 {
            let ghost t2 = v2@;
            let res = p2.read_to_end(v2);
            proof { lemma_prefix_trans(old(v2)@, t2, v2@); lemma_prefix_trans(s2, t2, v2@); }
            match drain_step(res) {
                DrainStep::Ended => {
                    p1.set_nonblocking(false)?;
                    let ghost t1 = v1@;
                    let res = p1.read_to_end(v1);
                    proof { lemma_prefix_trans(old(v1)@, t1, v1@); }
                    return match res {
                        Ok(_) => Ok(()),
                        Err(e) => Err(e),
                    };
                },
                DrainStep::Pending => {},
                DrainStep::Fail(e) => {
                    return Err(e);
                },
            }
        }
        let m1 = v1.len();
        let m2 = v2.len();
        if m1 == l1 && m2 == l2 {
            if idle == 0 {
                return Err(Error::Os(EAGAIN));
            }
            idle = idle - 1;
        } else {
            assert(s1.is_prefix_of(v1@) && s2.is_prefix_of(v2@));
        }
    }
}

} // verus!
