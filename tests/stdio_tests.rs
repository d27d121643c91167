use memfd_exec::anon_pipe::anon_pipe;
use memfd_exec::file_desc::FileDesc;
use memfd_exec::stdio::{ChildStdio, Stdio};

#[test]
fn inherit_routes_nothing() {
    let (child, ours) = Stdio::inherit().to_child_stdio(true).unwrap();
    assert!(matches!(child, ChildStdio::Inherit));
    assert!(ours.is_none());
    assert_eq!(child.fd(), None);
}

#[test]
fn piped_input_gives_parent_the_write_end() {
    let (child, ours) = Stdio::piped().to_child_stdio(true).unwrap();
    let ours = ours.unwrap();
    let theirs = match child {
        ChildStdio::Owned(fd) => fd,
        _ => panic!("a pipe end is owned"),
    };
    assert_eq!(ours.write(b"in").unwrap(), 2);
    let mut buf = [0u8; 4];
    assert_eq!(theirs.read(&mut buf).unwrap(), 2);
    assert_eq!(&buf[..2], b"in");
}

#[test]
fn piped_output_gives_parent_the_read_end() {
    let (child, ours) = Stdio::piped().to_child_stdio(false).unwrap();
    let ours = ours.unwrap();
    let theirs = match child {
        ChildStdio::Owned(fd) => fd,
        _ => panic!("a pipe end is owned"),
    };
    assert_eq!(theirs.write(b"out").unwrap(), 3);
    drop(theirs);
    let mut v = Vec::new();
    ours.read_to_end(&mut v).unwrap();
    assert_eq!(v, b"out".to_vec());
}

#[test]
fn null_device_routes() {
    let (child, ours) = Stdio::null().to_child_stdio(false).unwrap();
    assert!(ours.is_none());
    let fd = match child {
        ChildStdio::Owned(fd) => fd,
        _ => panic!("the null device is owned"),
    };
    assert_eq!(fd.write(b"discarded").unwrap(), 9);
    let (child, _) = Stdio::null().to_child_stdio(true).unwrap();
    let fd = match child {
        ChildStdio::Owned(fd) => fd,
        _ => panic!("the null device is owned"),
    };
    let mut buf = [0u8; 4];
    assert_eq!(fd.read(&mut buf).unwrap(), 0);
    assert!(fd.write(b"x").is_err());
}

#[test]
fn standard_slot_descriptor_is_duplicated() {
    for slot in 0..3 {
        let cfg = Stdio::Fd(FileDesc::new(slot));
        let (child, ours) = cfg.to_child_stdio(false).unwrap();
        assert!(ours.is_none());
        let fd = child.fd().unwrap();
        assert!(fd >= 3);
        assert!(matches!(child, ChildStdio::Owned(_)));
        std::mem::forget(cfg);
    }
}

#[test]
fn high_descriptor_is_used_directly() {
    let (rd, wr) = anon_pipe().unwrap();
    let raw = wr.as_raw_fd();
    assert!(raw >= 3);
    let cfg = Stdio::from(wr);
    let (child, ours) = cfg.to_child_stdio(false).unwrap();
    assert!(ours.is_none());
    assert_eq!(child.fd(), Some(raw));
    assert!(matches!(child, ChildStdio::Explicit(n) if n == raw));
    drop(rd);
}

#[test]
fn duplicate_refers_to_same_pipe() {
    let (rd, wr) = anon_pipe().unwrap();
    let w = wr.into_file_desc();
    let copy = w.duplicate().unwrap();
    assert!(copy.as_raw_fd() >= 3);
    assert_ne!(copy.as_raw_fd(), w.as_raw_fd());
    copy.write(b"dup").unwrap();
    drop(w);
    drop(copy);
    let mut v = Vec::new();
    rd.read_to_end(&mut v).unwrap();
    assert_eq!(v, b"dup".to_vec());
}
