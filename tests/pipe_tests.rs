use memfd_exec::anon_pipe::{anon_pipe, read2};
use memfd_exec::error::{Error, EAGAIN};

#[test]
fn pipe_round_trip() {
    let (rd, wr) = anon_pipe().unwrap();
    assert_ne!(rd.as_raw_fd(), wr.as_raw_fd());
    let data = b"Hello, world!";
    assert_eq!(wr.write(data).unwrap(), data.len());
    drop(wr);
    let mut out = b">".to_vec();
    assert_eq!(rd.read_to_end(&mut out).unwrap(), data.len());
    assert_eq!(out, b">Hello, world!".to_vec());
}

#[test]
fn read_into_buffer() {
    let (rd, wr) = anon_pipe().unwrap();
    wr.write(b"abc").unwrap();
    let mut buf = [0u8; 8];
    assert_eq!(rd.read(&mut buf).unwrap(), 3);
    assert_eq!(&buf[..3], b"abc");
}

#[test]
fn nonblocking_empty_pipe_would_block() {
    let (rd, _wr) = anon_pipe().unwrap();
    rd.set_nonblocking(true).unwrap();
    let mut buf = [0u8; 4];
    assert_eq!(rd.read(&mut buf), Err(Error::Os(EAGAIN)));
    rd.set_nonblocking(false).unwrap();
}

#[test]
fn read2_drains_unequal_streams() {
    let (r1, w1) = anon_pipe().unwrap();
    let (r2, w2) = anon_pipe().unwrap();
    let big: Vec<u8> = (0..40000u32).map(|i| (i % 251) as u8).collect();
    let mut off = 0;
    while off < big.len() {
        off += w1.write(&big[off..]).unwrap();
    }
    w2.write(b"0123456789").unwrap();
    drop(w1);
    drop(w2);
    let mut v1 = Vec::new();
    let mut v2 = Vec::new();
    read2(r1, &mut v1, r2, &mut v2).unwrap();
    assert_eq!(v1, big);
    assert_eq!(v2, b"0123456789".to_vec());
}

#[test]
fn read2_when_second_ends_first() {
    let (r1, w1) = anon_pipe().unwrap();
    let (r2, w2) = anon_pipe().unwrap();
    drop(w2);
    w1.write(b"late").unwrap();
    drop(w1);
    let mut v1 = b"x".to_vec();
    let mut v2 = Vec::new();
    read2(r1, &mut v1, r2, &mut v2).unwrap();
    assert_eq!(v1, b"xlate".to_vec());
    assert!(v2.is_empty());
}

#[test]
fn positioned_io_on_a_pipe_is_refused() {
    let (rd, wr) = anon_pipe().unwrap();
    let r = rd.into_file_desc();
    let w = wr.into_file_desc();
    let mut buf = [0u8; 4];
    assert_eq!(r.read_at(&mut buf, 0), Err(Error::Os(29)));
    assert_eq!(w.write_at(b"x", 0), Err(Error::Os(29)));
}

#[test]
fn pipe_ends_close_on_exec() {
    let (rd, wr) = anon_pipe().unwrap();
    let r = rd.into_file_desc();
    assert_eq!(r.get_cloexec(), Ok(true));
    r.set_cloexec().unwrap();
    assert_eq!(r.get_cloexec(), Ok(true));
    let w = wr.into_file_desc();
    assert_eq!(w.duplicate().unwrap().get_cloexec(), Ok(true));
}

#[test]
fn vectored_round_trip() {
    let (rd, wr) = anon_pipe().unwrap();
    assert!(rd.is_read_vectored());
    assert!(wr.is_write_vectored());
    let parts = [std::io::IoSlice::new(b"Hello, "), std::io::IoSlice::new(b"world!")];
    assert_eq!(wr.write_vectored(&parts).unwrap(), 13);
    let mut a = [0u8; 5];
    let mut b = [0u8; 8];
    let n = {
        let mut bufs = [std::io::IoSliceMut::new(&mut a), std::io::IoSliceMut::new(&mut b)];
        rd.read_vectored(&mut bufs).unwrap()
    };
    assert_eq!(n, 13);
    assert_eq!(&a, b"Hello");
    assert_eq!(&b, b", world!");
}
