use memfd_exec::control::{decode_report, encode_failure, report_outcome, ExecReport};
use memfd_exec::error::Error;

#[test]
fn failure_record_layout() {
    assert_eq!(encode_failure(2), [0, 0, 0, 2, b'N', b'O', b'E', b'X']);
    assert_eq!(encode_failure(0x01020304), [1, 2, 3, 4, b'N', b'O', b'E', b'X']);
}

#[test]
fn failure_record_round_trip() {
    for errno in [1, 2, 8, 13, 255, 0x7fff_ffff, -1, i32::MIN] {
        let rec = encode_failure(errno);
        assert_eq!(decode_report(&rec), ExecReport::Failed(errno));
    }
}

#[test]
fn empty_report_is_success() {
    assert_eq!(decode_report(&[]), ExecReport::Succeeded);
}

#[test]
fn malformed_reports() {
    assert_eq!(decode_report(&[0, 0, 0]), ExecReport::Malformed);
    assert_eq!(decode_report(&[0, 0, 0, 2, b'N', b'O', b'E', b'Y']), ExecReport::Malformed);
    assert_eq!(decode_report(&[0, 0, 0, 2, b'N', b'O', b'E', b'X', 0]), ExecReport::Malformed);
}

#[test]
fn outcomes_of_reports() {
    assert_eq!(report_outcome(ExecReport::Succeeded), Ok(()));
    assert_eq!(report_outcome(ExecReport::Failed(8)), Err(Error::Os(8)));
    assert_eq!(report_outcome(ExecReport::Malformed), Err(Error::ControlProtocol));
    assert_eq!(report_outcome(decode_report(&encode_failure(2))), Err(Error::Os(2)));
}
