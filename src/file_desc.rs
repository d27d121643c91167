//! Owned file descriptors.
use vstd::prelude::*;

use crate::error::{Error, EINTR};
use crate::sys::{self, FcntlCmd};

verus! {

/// Linux's `O_NONBLOCK` file status flag.
pub const O_NONBLOCK: i32 = 0o4000;

/// Linux's `FD_CLOEXEC` descriptor flag.
pub const FD_CLOEXEC: i32 = 1;

/// Linux's `UIO_MAXIOV`: the most buffers that one vectored call takes.
pub const MAX_IOV: usize = 1024;

/// The size of the chunks in which `read_to_end` reads.
const CHUNK: usize = 8192;

/// The lowest descriptor number after the three standard streams.
pub const FIRST_FREE_FD: i32 = 3;

/// An open file descriptor, owned by this value.
#[derive(Debug)]
pub struct FileDesc {
    fd: i32,
}

/// The file status flags with `O_NONBLOCK` set or cleared.
pub open spec fn flags_with_nonblocking(flags: i32, on: bool) -> i32 {
    if on {
        flags | O_NONBLOCK
    } else {
        flags & !O_NONBLOCK
    }
}

/// What one read asks of a loop that reads to end of file.
#[derive(PartialEq, Eq, Structural, Clone, Copy, Debug)]
pub enum ReadStep {
    /// The read gave nothing: end of file.
    Eof,
    /// The read gave this many bytes, to be appended.
    Append(usize),
    /// The read was interrupted and may be tried again.
    Retry,
    /// The read failed.
    Fail(Error),
}

pub open spec fn read_step_of(res: Result<usize, i32>, may_retry: bool) -> ReadStep {
    match res {
        Ok(n) => if n == 0 {
            ReadStep::Eof
        } else {
            ReadStep::Append(n)
        },
        Err(code) => if code == EINTR && may_retry {
            ReadStep::Retry
        } else {
            ReadStep::Fail(Error::Os(code))
        },
    }
}

/// What one read asks of a loop that reads to end of file: 0 bytes end it,
/// other counts are appended, an interruption is retried while retries are
/// left, and any other failure ends the loop with that error.
pub fn read_step(res: Result<usize, i32>, may_retry: bool) -> (r: ReadStep)
    ensures
        r == read_step_of(res, may_retry),
{
    match res {
        Ok(n) => if n == 0 {
            ReadStep::Eof
        } else {
            ReadStep::Append(n)
        },
        Err(code) => if code == EINTR && may_retry {
            ReadStep::Retry
        } else {
            ReadStep::Fail(Error::Os(code))
        },
    }
}

/// Appends the first `n` bytes of `chunk` to `buf`.
pub fn append_prefix(buf: &mut Vec<u8>, chunk: &[u8], n: usize)
    requires
        n <= chunk@.len(),
    ensures
        final(buf)@ == old(buf)@ + chunk@.take(n as int),
{
    let mut i: usize = 0;
    while i < n
        invariant
            i <= n <= chunk@.len(),
            buf@ == old(buf)@ + chunk@.take(i as int),
        decreases n - i,
    {
        buf.push(chunk[i]);
        i = i + 1;
        assert(chunk@.take(i as int) =~= chunk@.take(i - 1).push(chunk@[i - 1]));
    }
}

proof fn lemma_prefix_of_append(a: Seq<u8>, b: Seq<u8>)
    ensures
        a.is_prefix_of(a + b),
{
    assert forall|k: int| 0 <= k < a.len() implies a[k] == (a + b)[k] by {}
}

/// The file status flags with `O_NONBLOCK` set or cleared, the others kept.
pub fn nonblocking_flags(flags: i32, on: bool) -> (r: i32)
    ensures
        r == flags_with_nonblocking(flags, on),
        (r & O_NONBLOCK != 0) == on,
        r & !O_NONBLOCK == flags & !O_NONBLOCK,
{
    assert((flags | 0o4000i32) & 0o4000i32 != 0) by (bit_vector);
    assert((flags & !0o4000i32) & 0o4000i32 == 0) by (bit_vector);
    assert((flags | 0o4000i32) & !0o4000i32 == flags & !0o4000i32) by (bit_vector);
    assert((flags & !0o4000i32) & !0o4000i32 == flags & !0o4000i32) by (bit_vector);
    if on {
        flags | O_NONBLOCK
    } else {
        flags & !O_NONBLOCK
    }
}

impl FileDesc {
    /// The descriptor number.
    pub closed spec fn raw(&self) -> i32 {
        self.fd
    }

    /// Takes ownership of an open descriptor.
    pub fn new(fd: i32) -> (r: FileDesc)
        ensures
            r.raw() == fd,
    {
        FileDesc { fd }
    }

    /// The descriptor number.
    pub fn as_raw_fd(&self) -> (r: i32)
        ensures
            r == self.raw(),
    {
        self.fd
    }

    /// Reads at most `buf.len()` bytes into the start of `buf`.
    pub fn read(&self, buf: &mut [u8]) -> (r: Result<usize, Error>)
        ensures
            final(buf)@.len() == old(buf)@.len(),
            r matches Ok(n) ==> n <= old(buf)@.len(),
            r matches Err(e) ==> e is Os,
    {
        match sys::read(self.fd, buf) {
            Ok(n) => Ok(n),
            Err(code) => Err(Error::Os(code)),
        }
    }

    /// Writes at most `buf.len()` bytes and says how many were taken.
    pub fn write(&self, buf: &[u8]) -> (r: Result<usize, Error>)
        ensures
            r matches Ok(n) ==> n <= buf@.len(),
            r matches Err(e) ==> e is Os,
    {
        match sys::write(self.fd, buf) {
            Ok(n) => Ok(n),
            Err(code) => Err(Error::Os(code)),
        }
    }

    /// Reads into the buffers in turn, into at most `MAX_IOV` of them.
    pub fn read_vectored(&self, bufs: &mut [std::io::IoSliceMut<'_>]) -> (r: Result<usize, Error>)
        ensures
            r matches Err(e) ==> e is Os,
    {
        let count = if bufs.len() < MAX_IOV {
            bufs.len()
        } else {
            MAX_IOV
        };
        match sys::readv(self.fd, bufs, count) {
            Ok(n) => Ok(n),
            Err(code) => Err(Error::Os(code)),
        }
    }

    /// Vectored reads are supported.
    pub fn is_read_vectored(&self) -> (r: bool)
        ensures
            r,
    {
        true
    }

    /// Writes from the buffers in turn, from at most `MAX_IOV` of them.
    pub fn write_vectored(&self, bufs: &[std::io::IoSlice<'_>]) -> (r: Result<usize, Error>)
        ensures
            r matches Err(e) ==> e is Os,
    {
        let count = if bufs.len() < MAX_IOV {
            bufs.len()
        } else {
            MAX_IOV
        };
        match sys::writev(self.fd, vstd::slice::slice_subrange(bufs, 0, count)) {
            Ok(n) => Ok(n),
            Err(code) => Err(Error::Os(code)),
        }
    }

    /// Vectored writes are supported.
    pub fn is_write_vectored(&self) -> (r: bool)
        ensures
            r,
    {
        true
    }

    /// Reads until end of file and appends what it read to `buf`; an
    /// interrupted read is retried, up to `u64::MAX` times. What was read
    /// before a failure stays in `buf`.
    pub fn read_to_end(&self, buf: &mut Vec<u8>) -> (r: Result<usize, Error>)
        ensures
            old(buf)@.is_prefix_of(final(buf)@),
            r matches Ok(n) ==> final(buf)@.len() == old(buf)@.len() + n,
            r matches Err(e) ==> e is Os,
    {
        let start = buf.len();
        let mut chunk: Vec<u8> = vec![0u8; CHUNK];
        let mut retries: u64 = u64::MAX;
        loop
            invariant
                start == old(buf)@.len(),
                old(buf)@.is_prefix_of(buf@),
                buf@.len() <= usize::MAX,
                chunk@.len() == CHUNK,
            decreases usize::MAX - buf@.len(), retries,
        {
            let res = sys::read(self.fd, chunk.as_mut_slice());
            match read_step(res, retries > 0) {
                ReadStep::Eof => {
                    return Ok(buf.len() - start);
                },
                ReadStep::Append(n) => {
                    let ghost before = buf@;
                    append_prefix(buf, chunk.as_slice(), n);
                    let _end = buf.len();
                    proof {
                        lemma_prefix_of_append(before, chunk@.take(n as int));
                        assert forall|k: int| 0 <= k < old(buf)@.len() implies old(buf)@[k] == buf@[k] by {
                            assert(before[k] == buf@[k]);
                        }
                    }
                },
                ReadStep::Retry => {
                    retries = retries - 1;
                },
                ReadStep::Fail(e) => {
                    return Err(e);
                },
            }
        }
    }

    /// Reads at most `buf.len()` bytes from `offset` on, into the start of
    /// `buf`, without moving the file position.
    pub fn read_at(&self, buf: &mut [u8], offset: u64) -> (r: Result<usize, Error>)
        requires
            offset <= i64::MAX,
        ensures
            final(buf)@.len() == old(buf)@.len(),
            r matches Ok(n) ==> n <= old(buf)@.len(),
            r matches Err(e) ==> e is Os,
    {
        match sys::pread(self.fd, buf, offset as i64) {
            Ok(n) => Ok(n),
            Err(code) => Err(Error::Os(code)),
        }
    }

    /// Writes at most `buf.len()` bytes at `offset`, without moving the file
    /// position.
    pub fn write_at(&self, buf: &[u8], offset: u64) -> (r: Result<usize, Error>)
        requires
            offset <= i64::MAX,
        ensures
            r matches Ok(n) ==> n <= buf@.len(),
            r matches Err(e) ==> e is Os,
    {
        match sys::pwrite(self.fd, buf, offset as i64) {
            Ok(n) => Ok(n),
            Err(code) => Err(Error::Os(code)),
        }
    }

    /// Whether the descriptor is closed on exec.
    pub fn get_cloexec(&self) -> (r: Result<bool, Error>)
        ensures
            r matches Err(e) ==> e is Os,
    {
        match sys::fcntl(self.fd, FcntlCmd::GetFd) {
            Ok(flags) => Ok(flags & FD_CLOEXEC != 0),
            Err(code) => Err(Error::Os(code)),
        }
    }

    /// Marks the descriptor to be closed on exec, keeping its other flags;
    /// asks nothing more of the system where the mark is there already.
    pub fn set_cloexec(&self) -> (r: Result<(), Error>)
        ensures
            r matches Err(e) ==> e is Os,
    {
        let previous = match sys::fcntl(self.fd, FcntlCmd::GetFd) {
            Ok(flags) => flags,
            Err(code) => return Err(Error::Os(code)),
        };
        let new = previous | FD_CLOEXEC;
        if new != previous {
            if let Err(code) = sys::fcntl(self.fd, FcntlCmd::SetFd(new)) {
                return Err(Error::Os(code));
            }
        }
        Ok(())
    }

    /// Turns nonblocking mode on or off, keeping the other status flags.
    pub fn set_nonblocking(&self, nonblocking: bool) -> (r: Result<(), Error>)
        ensures
            r matches Err(e) ==> e is Os,
    {
        let flags = match sys::fcntl(self.fd, FcntlCmd::GetFl) {
            Ok(f) => f,
            Err(code) => return Err(Error::Os(code)),
        };
        let new = nonblocking_flags(flags, nonblocking);
        if new != flags {
            match sys::fcntl(self.fd, FcntlCmd::SetFl(new)) {
                Ok(_) => {},
                Err(code) => return Err(Error::Os(code)),
            }
        }
        Ok(())
    }

    /// A second descriptor for the same open file, numbered above the three
    /// standard streams and closed on exec.
    pub fn duplicate(&self) -> (r: Result<FileDesc, Error>)
        ensures
            r matches Ok(d) ==> d.raw() >= FIRST_FREE_FD && d.raw() != self.raw(),
            r matches Err(e) ==> e is Os,
    {
        match sys::fcntl(self.fd, FcntlCmd::DupCloexec(FIRST_FREE_FD)) {
            Ok(fd) => Ok(FileDesc { fd }),
            Err(code) => Err(Error::Os(code)),
        }
    }
}

impl Drop for FileDesc {
    /// Closes the descriptor; a failure to close leaves nothing to be done.
    fn drop(&mut self)
        opens_invariants none
        no_unwind
    {
        let _ = sys::close(self.fd);
    }
}

} // verus!
