//! The system calls that the library makes, each through `nix`.
//!
//! Every function here is trusted: its contract says what the operating
//! system documents for the call, and a failure comes back as the raw error
//! number that `nix` read from `errno`.
use vstd::prelude::*;

use nix::fcntl::{FcntlArg, FdFlag, OFlag};
use nix::poll::{PollFd, PollFlags};
use nix::sys::signal::{SigSet, SigmaskHow, Signal};
use nix::sys::stat::Mode;
use nix::sys::wait::{WaitPidFlag, WaitStatus as W};
use nix::unistd::Pid;

use crate::status::ChildState;

verus! {

/// std's buffer for vectored writes, carried through as it is.
#[verifier::external_type_specification]
#[verifier::external_body]
pub struct ExIoSlice<'a>(std::io::IoSlice<'a>);

/// std's buffer for vectored reads, carried through as it is.
#[verifier::external_type_specification]
#[verifier::external_body]
pub struct ExIoSliceMut<'a>(std::io::IoSliceMut<'a>);

/// The operations of `fcntl` that the library uses.
pub(crate) enum FcntlCmd {
    /// Read the descriptor flags.
    GetFd,
    /// Replace the descriptor flags.
    SetFd(i32),
    /// Read the file status flags.
    GetFl,
    /// Replace the file status flags.
    SetFl(i32),
    /// Duplicate onto the lowest free number at or above the given one,
    /// with close-on-exec set on the copy.
    DupCloexec(i32),
}

/// Relies on nix::unistd::read: read(2) stores at most `buf.len()` bytes at
/// the start of `buf` and reports how many; 0 means end of file.
#[verifier::external_body]
pub(crate) fn read(fd: i32, buf: &mut [u8]) -> (r: Result<usize, i32>)
    ensures
        final(buf)@.len() == old(buf)@.len(),
        r matches Ok(n) ==> n <= old(buf)@.len(),
{
    match nix::unistd::read(fd, buf) {
        Ok(n) => Ok(n),
        Err(e) => Err(e as i32),
    }
}

/// Relies on nix::unistd::write: write(2) takes at most `buf.len()` bytes.
#[verifier::external_body]
pub(crate) fn write(fd: i32, buf: &[u8]) -> (r: Result<usize, i32>)
    ensures
        r matches Ok(n) ==> n <= buf@.len(),
{
    match nix::unistd::write(fd, buf) {
        Ok(n) => Ok(n),
        Err(e) => Err(e as i32),
    }
}

/// Relies on nix::sys::uio::pread: pread(2) stores at most `buf.len()`
/// bytes at the start of `buf` and reports how many.
#[verifier::external_body]
pub(crate) fn pread(fd: i32, buf: &mut [u8], offset: i64) -> (r: Result<usize, i32>)
    ensures
        final(buf)@.len() == old(buf)@.len(),
        r matches Ok(n) ==> n <= old(buf)@.len(),
{
    match nix::sys::uio::pread(fd, buf, offset) {
        Ok(n) => Ok(n),
        Err(e) => Err(e as i32),
    }
}

/// Relies on nix::sys::uio::pwrite: pwrite(2) takes at most `buf.len()` bytes.
#[verifier::external_body]
pub(crate) fn pwrite(fd: i32, buf: &[u8], offset: i64) -> (r: Result<usize, i32>)
    ensures
        r matches Ok(n) ==> n <= buf@.len(),
{
    match nix::sys::uio::pwrite(fd, buf, offset) {
        Ok(n) => Ok(n),
        Err(e) => Err(e as i32),
    }
}

/// Relies on nix::sys::uio::readv, called on the first `count` buffers.
#[verifier::external_body]
pub(crate) fn readv(fd: i32, bufs: &mut [std::io::IoSliceMut<'_>], count: usize) -> (r: Result<usize, i32>)
    requires
        count <= old(bufs)@.len(),
{
    match nix::sys::uio::readv(fd, &mut bufs[..count]) {
        Ok(n) => Ok(n),
        Err(e) => Err(e as i32),
    }
}

/// Relies on nix::sys::uio::writev.
#[verifier::external_body]
pub(crate) fn writev(fd: i32, bufs: &[std::io::IoSlice<'_>]) -> (r: Result<usize, i32>) {
    match nix::sys::uio::writev(fd, bufs) {
        Ok(n) => Ok(n),
        Err(e) => Err(e as i32),
    }
}

/// Relies on nix::unistd::close.
#[verifier::external_body]
pub(crate) fn close(fd: i32) -> (r: Result<(), i32>)
    opens_invariants none
    no_unwind
{
    match nix::unistd::close(fd) {
        Ok(()) => Ok(()),
        Err(e) => Err(e as i32),
    }
}

/// Relies on nix::fcntl::fcntl: fcntl(2) duplicates onto the lowest free
/// number at or above the one asked for, so never onto `fd`, which is open.
#[verifier::external_body]
pub(crate) fn fcntl(fd: i32, cmd: FcntlCmd) -> (r: Result<i32, i32>)
    ensures
        cmd matches FcntlCmd::DupCloexec(low) ==> (r matches Ok(n) ==> n >= low && n != fd),
{
    let arg = match cmd {
        FcntlCmd::GetFd => FcntlArg::F_GETFD,
        FcntlCmd::SetFd(flags) => FcntlArg::F_SETFD(FdFlag::from_bits_truncate(flags)),
        FcntlCmd::GetFl => FcntlArg::F_GETFL,
        FcntlCmd::SetFl(flags) => FcntlArg::F_SETFL(OFlag::from_bits_truncate(flags)),
        FcntlCmd::DupCloexec(low) => FcntlArg::F_DUPFD_CLOEXEC(low),
    };
    match nix::fcntl::fcntl(fd, arg) {
        Ok(n) => Ok(n),
        Err(e) => Err(e as i32),
    }
}

/// Relies on nix::unistd::pipe2: pipe2(2) gives the read end, then the
/// write end, two distinct open descriptors.
#[verifier::external_body]
pub(crate) fn pipe2(flags: i32) -> (r: Result<(i32, i32), i32>)
    ensures
        r matches Ok((rd, wr)) ==> rd >= 0 && wr >= 0 && rd != wr,
{
    match nix::unistd::pipe2(OFlag::from_bits_truncate(flags)) {
        Ok((rd, wr)) => Ok((rd, wr)),
        Err(e) => Err(e as i32),
    }
}

/// Relies on nix::fcntl::open: open(2) gives a nonnegative descriptor.
#[verifier::external_body]
pub(crate) fn open(path: &str, flags: i32) -> (r: Result<i32, i32>)
    ensures
        r matches Ok(fd) ==> fd >= 0,
{
    match nix::fcntl::open(path, OFlag::from_bits_truncate(flags), Mode::empty()) {
        Ok(fd) => Ok(fd),
        Err(e) => Err(e as i32),
    }
}

/// Relies on nix::unistd::dup2: dup2(2) makes `newfd` a copy of `oldfd`
/// and returns `newfd`.
#[verifier::external_body]
pub(crate) fn dup2(oldfd: i32, newfd: i32) -> (r: Result<i32, i32>)
    ensures
        r matches Ok(fd) ==> fd == newfd,
{
    match nix::unistd::dup2(oldfd, newfd) {
        Ok(fd) => Ok(fd),
        Err(e) => Err(e as i32),
    }
}

/// Relies on nix::unistd::chdir, which takes the path's bytes as they are.
#[verifier::external_body]
pub(crate) fn chdir(path: &[u8]) -> (r: Result<(), i32>) {
    match nix::unistd::chdir(path) {
        Ok(()) => Ok(()),
        Err(e) => Err(e as i32),
    }
}

/// Relies on nix::sys::signal::pthread_sigmask, called to replace the
/// calling thread's signal mask by the empty set.
#[verifier::external_body]
pub(crate) fn pthread_sigmask_clear() -> (r: Result<(), i32>) {
    match nix::sys::signal::pthread_sigmask(SigmaskHow::SIG_SETMASK, Some(&SigSet::empty()), None) {
        Ok(()) => Ok(()),
        Err(e) => Err(e as i32),
    }
}

/// Relies on nix::sys::wait::waitpid: with `flags` holding WNOHANG a child
/// that has not changed state gives `None`. nix decodes the status word: an
/// exit code is its second byte, a signal one of nix's `Signal`s, numbered 1
/// to 31 (a number that nix does not know comes back as an error); a stop
/// under ptrace is reported as `Traced`.
#[verifier::external_body]
pub(crate) fn waitpid(pid: i32, flags: i32) -> (r: Result<Option<ChildState>, i32>)
    ensures
        r matches Ok(Some(s)) ==> s.valid(),
{
    let state = match nix::sys::wait::waitpid(Pid::from_raw(pid), Some(WaitPidFlag::from_bits_truncate(flags))) {
        Ok(W::Exited(_, code)) => ChildState::Exited(code),
        Ok(W::Signaled(_, sig, core)) => ChildState::Signaled(sig as i32, core),
        Ok(W::Stopped(_, sig)) => ChildState::Stopped(sig as i32),
        Ok(W::PtraceEvent(..)) => ChildState::Traced,
        Ok(W::PtraceSyscall(_)) => ChildState::Traced,
        Ok(W::Continued(_)) => ChildState::Continued,
        Ok(W::StillAlive) => return Ok(None),
        Err(e) => return Err(e as i32),
    };
    Ok(Some(state))
}

/// Relies on nix::sys::signal::kill, called with SIGKILL.
#[verifier::external_body]
pub(crate) fn kill(pid: i32) -> (r: Result<(), i32>) {
    match nix::sys::signal::kill(Pid::from_raw(pid), Signal::SIGKILL) {
        Ok(()) => Ok(()),
        Err(e) => Err(e as i32),
    }
}

/// Relies on nix::poll::poll, called with no timeout on two descriptors
/// that are watched for input; gives the events that each one reported, or
/// -1 for events that nix does not know, so that they are not taken for none.
#[verifier::external_body]
pub(crate) fn poll_in2(fd1: i32, fd2: i32) -> (r: Result<(i16, i16), i32>) {
    let mut fds = [PollFd::new(fd1, PollFlags::POLLIN), PollFd::new(fd2, PollFlags::POLLIN)];
    match nix::poll::poll(&mut fds, -1) {
        Ok(_) => Ok((
            fds[0].revents().map_or(-1, |f| f.bits()),
            fds[1].revents().map_or(-1, |f| f.bits()),
        )),
        Err(e) => Err(e as i32),
    }
}

} // verus!
