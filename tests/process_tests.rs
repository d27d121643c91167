use memfd_exec::anon_pipe::anon_pipe;
use memfd_exec::error::Error;
use memfd_exec::process::Process;
use memfd_exec::stdio::StdioPipes;
use memfd_exec::Child;

#[test]
fn waiting_on_a_stranger_fails() {
    let mut p = Process::new(1);
    assert_eq!(p.id(), 1);
    assert!(matches!(p.wait(), Err(Error::Os(_))));
    assert!(matches!(p.try_wait(), Err(Error::Os(_))));
}

#[test]
fn wait_with_output_collects_both_pipes() {
    let (out_r, out_w) = anon_pipe().unwrap();
    let (err_r, err_w) = anon_pipe().unwrap();
    let (in_r, in_w) = anon_pipe().unwrap();
    out_w.write(b"stdout bytes").unwrap();
    err_w.write(b"stderr").unwrap();
    drop(out_w);
    drop(err_w);
    let pipes = StdioPipes { stdin: Some(in_w), stdout: Some(out_r), stderr: Some(err_r) };
    let child = Child::new(Process::new(1), pipes);
    assert!(child.stdin.is_some());
    // The drain finishes; the wait then fails, as pid 1 is no child of ours.
    assert!(matches!(child.wait_with_output(), Err(Error::Os(_))));
    let mut buf = [0u8; 1];
    assert_eq!(in_r.read(&mut buf).unwrap(), 0);
}

#[test]
fn child_stdin_write_all() {
    let (in_r, in_w) = anon_pipe().unwrap();
    let pipes = StdioPipes { stdin: Some(in_w), stdout: None, stderr: None };
    let mut child = Child::new(Process::new(1), pipes);
    let mut stdin = child.stdin.take().unwrap();
    stdin.write_all(b"Hello, world!").unwrap();
    stdin.flush().unwrap();
    drop(stdin);
    let mut v = Vec::new();
    in_r.read_to_end(&mut v).unwrap();
    assert_eq!(v, b"Hello, world!".to_vec());
}

#[test]
fn child_output_streams_read() {
    let (out_r, out_w) = anon_pipe().unwrap();
    let (err_r, err_w) = anon_pipe().unwrap();
    out_w.write(b"out").unwrap();
    err_w.write(b"err").unwrap();
    drop(out_w);
    drop(err_w);
    let pipes = StdioPipes { stdin: None, stdout: Some(out_r), stderr: Some(err_r) };
    let mut child = Child::new(Process::new(1), pipes);
    let mut out = child.stdout.take().unwrap();
    let mut err = child.stderr.take().unwrap();
    assert_eq!(out.write_all(b"x"), Err(Error::Os(9)));
    let mut v = Vec::new();
    assert_eq!(out.read_to_end(&mut v).unwrap(), 3);
    assert_eq!(v, b"out".to_vec());
    let mut buf = [0u8; 8];
    assert_eq!(err.read(&mut buf).unwrap(), 3);
    assert_eq!(&buf[..3], b"err");
}
