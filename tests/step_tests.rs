use memfd_exec::anon_pipe::{drain_step, poll_step, DrainStep, PollStep};
use memfd_exec::child::{write_step, WriteStep};
use memfd_exec::error::{Error, EAGAIN, EINTR};
use memfd_exec::executable::image_write_outcome;
use memfd_exec::file_desc::{append_prefix, read_step, ReadStep};
use memfd_exec::stdio::null_flags;

#[test]
fn read_steps() {
    assert_eq!(read_step(Ok(0), true), ReadStep::Eof);
    assert_eq!(read_step(Ok(7), true), ReadStep::Append(7));
    assert_eq!(read_step(Err(EINTR), true), ReadStep::Retry);
    assert_eq!(read_step(Err(EINTR), false), ReadStep::Fail(Error::Os(EINTR)));
    assert_eq!(read_step(Err(9), true), ReadStep::Fail(Error::Os(9)));
}

#[test]
fn append_takes_a_prefix() {
    let mut buf = b"ab".to_vec();
    append_prefix(&mut buf, b"cdef", 3);
    assert_eq!(buf, b"abcde".to_vec());
    append_prefix(&mut buf, b"xyz", 0);
    assert_eq!(buf, b"abcde".to_vec());
}

#[test]
fn poll_steps() {
    assert_eq!(poll_step(Ok((1, 0))), PollStep::Ready(true, false));
    assert_eq!(poll_step(Ok((0, 16))), PollStep::Ready(false, true));
    assert_eq!(poll_step(Ok((-1, 0))), PollStep::Ready(true, false));
    assert_eq!(poll_step(Err(EINTR)), PollStep::Retry);
    assert_eq!(poll_step(Err(22)), PollStep::Fail(Error::Os(22)));
}

#[test]
fn drain_steps() {
    assert_eq!(drain_step(Ok(0)), DrainStep::Ended);
    assert_eq!(drain_step(Ok(100)), DrainStep::Ended);
    assert_eq!(drain_step(Err(Error::Os(EAGAIN))), DrainStep::Pending);
    assert_eq!(drain_step(Err(Error::Os(5))), DrainStep::Fail(Error::Os(5)));
}

#[test]
fn write_steps() {
    assert_eq!(write_step(Ok(4), true), WriteStep::Advance(4));
    assert_eq!(write_step(Ok(0), true), WriteStep::Fail(Error::ShortWrite));
    assert_eq!(write_step(Err(Error::Os(EINTR)), true), WriteStep::Retry);
    assert_eq!(write_step(Err(Error::Os(EINTR)), false), WriteStep::Fail(Error::Os(EINTR)));
    assert_eq!(write_step(Err(Error::Os(32)), true), WriteStep::Fail(Error::Os(32)));
}

#[test]
fn image_write_outcomes() {
    assert_eq!(image_write_outcome(Ok(10), 10), Ok(()));
    assert_eq!(image_write_outcome(Ok(9), 10), Err(Error::ShortWrite));
    assert_eq!(image_write_outcome(Err(Error::Os(28)), 10), Err(Error::Os(28)));
}

#[test]
fn null_device_flags() {
    assert_eq!(null_flags(true), 0o2000000);
    assert_eq!(null_flags(false), 0o2000001);
}

#[test]
fn child_error_numbers() {
    assert_eq!(Error::Os(2).child_errno(), 2);
    assert_eq!(Error::ShortWrite.child_errno(), 5);
    assert_eq!(Error::NulByte.child_errno(), 22);
}
