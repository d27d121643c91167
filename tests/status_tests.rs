use memfd_exec::cvt::{cvt, cvt_nz, cvt_r};
use memfd_exec::error::Error;
use memfd_exec::status::{ChildState, ExitStatus};

#[test]
fn exit_code_42_decodes() {
    let st = ExitStatus::from_state(ChildState::Exited(42));
    assert_eq!(st.into_raw(), 42 << 8);
    assert!(st.exited());
    assert_eq!(st.code(), Some(42));
    assert_eq!(st.signal(), None);
    assert!(!st.core_dumped());
    assert_eq!(st.stopped_signal(), None);
    assert!(!st.continued());
}

#[test]
fn killed_by_signal_decodes() {
    let st = ExitStatus::from_state(ChildState::Signaled(9, false));
    assert_eq!(st.into_raw(), 9);
    assert!(!st.exited());
    assert_eq!(st.code(), None);
    assert_eq!(st.signal(), Some(9));
    assert!(!st.core_dumped());
}

#[test]
fn core_dump_flag_decodes() {
    let st = ExitStatus::from_state(ChildState::Signaled(11, true));
    assert_eq!(st.into_raw(), 11 | 0x80);
    assert_eq!(st.signal(), Some(11));
    assert!(st.core_dumped());
    assert_eq!(st.code(), None);
}

#[test]
fn stopped_and_continued_decode() {
    let st = ExitStatus::from_state(ChildState::Stopped(19));
    assert_eq!(st.into_raw(), (19 << 8) | 0x7f);
    assert_eq!(st.stopped_signal(), Some(19));
    assert_eq!(st.code(), None);
    assert_eq!(st.signal(), None);
    let c = ExitStatus::from_state(ChildState::Continued);
    assert_eq!(c.into_raw(), 0xffff);
    assert!(c.continued());
    assert_eq!(c.code(), None);
    assert_eq!(c.signal(), None);
}

#[test]
fn raw_status_round_trips() {
    let st = ExitStatus::new(0x0100);
    assert_eq!(st.code(), Some(1));
    assert_eq!(ExitStatus::from(0x0100), st);
    assert_eq!(st.into_raw(), 0x0100);
}

#[test]
fn exit_ok_only_for_zero() {
    assert!(ExitStatus::new(0).exit_ok().is_ok());
    let err = ExitStatus::new(0x0200).exit_ok().unwrap_err();
    assert_eq!(err.into_status(), ExitStatus::new(0x0200));
    assert!(ExitStatus::from_state(ChildState::Signaled(15, false)).exit_ok().is_err());
}

#[test]
fn cvt_helpers() {
    assert_eq!(cvt(5i32), Ok(5));
    assert!(matches!(cvt(-1i64), Err(Error::Os(_))));
    assert_eq!(cvt_nz(0), Ok(()));
    assert_eq!(cvt_nz(13), Err(Error::Os(13)));
    assert_eq!(cvt_r(|| 7isize), Ok(7));
}
