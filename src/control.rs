//! The record that a child writes to the control pipe when it cannot replace
//! its image: the error number in four big-endian bytes, then a fixed marker.
use vstd::prelude::*;

use crate::error::Error;

verus! {

/// The length of a failure record.
pub const RECORD_LEN: usize = 8;

/// The marker that closes a failure record: "NOEX" in ASCII.
pub open spec fn marker() -> Seq<u8> {
    seq![0x4eu8, 0x4fu8, 0x45u8, 0x58u8]
}

/// The four big-endian bytes of a 32-bit integer.
pub open spec fn be_bytes(x: i32) -> Seq<u8> {
    let u = #[verifier::truncate] (x as u32);
    seq![(u >> 24u32) as u8, (u >> 16u32) as u8, (u >> 8u32) as u8, u as u8]
}

/// The integer that four big-endian bytes hold.
pub open spec fn from_be(b0: u8, b1: u8, b2: u8, b3: u8) -> i32 {
    #[verifier::truncate] ((((b0 as u32) << 24u32) | ((b1 as u32) << 16u32) | ((b2 as u32) << 8u32)
        | (b3 as u32)) as i32)
}

/// The failure record for an error number.
pub open spec fn record_of(errno: i32) -> Seq<u8> {
    be_bytes(errno) + marker()
}

/// What the parent learns from the bytes it read from the control pipe
/// before end of file.
#[derive(PartialEq, Eq, Structural, Clone, Copy, Debug)]
pub enum ExecReport {
    /// Nothing came: the child replaced its image, which closed the pipe.
    Succeeded,
    /// The child could not replace its image, for this error number.
    Failed(i32),
    /// The bytes are no failure record.
    Malformed,
}

pub open spec fn report_of(msg: Seq<u8>) -> ExecReport {
    if msg.len() == 0 {
        ExecReport::Succeeded
    } else if msg.len() == 8 && msg.subrange(4, 8) == marker() {
        ExecReport::Failed(from_be(msg[0], msg[1], msg[2], msg[3]))
    } else {
        ExecReport::Malformed
    }
}

/// Builds the failure record for an error number.
pub fn encode_failure(errno: i32) -> (r: [u8; 8])
    ensures
        r@ == record_of(errno),
{
    let u = #[verifier::truncate] (errno as u32);
    let r = [(u >> 24u32) as u8, (u >> 16u32) as u8, (u >> 8u32) as u8, u as u8, 0x4e, 0x4f, 0x45, 0x58];
    assert(r@ =~= record_of(errno));
    r
}

/// Reads what the parent got from the control pipe.
pub fn decode_report(msg: &[u8]) -> (r: ExecReport)
    ensures
        r == report_of(msg@),
{
    if msg.len() == 0 {
        ExecReport::Succeeded
    } else if msg.len() == 8 && msg[4] == 0x4e && msg[5] == 0x4f && msg[6] == 0x45 && msg[7] == 0x58 {
        assert(msg@.subrange(4, 8) =~= marker());
        let v = #[verifier::truncate] ((((msg[0] as u32) << 24u32) | ((msg[1] as u32) << 16u32) | ((
        msg[2] as u32) << 8u32) | (msg[3] as u32)) as i32);
        ExecReport::Failed(v)
    } else {
        proof {
            if msg@.len() == 8 && msg@.subrange(4, 8) == marker() {
                assert(msg@.subrange(4, 8)[0] == msg@[4]);
                assert(msg@.subrange(4, 8)[1] == msg@[5]);
                assert(msg@.subrange(4, 8)[2] == msg@[6]);
                assert(msg@.subrange(4, 8)[3] == msg@[7]);
            }
        }
        ExecReport::Malformed
    }
}

/// What the launch comes to, for what the parent read.
pub open spec fn outcome_of(report: ExecReport) -> Result<(), Error> {
    match report {
        ExecReport::Succeeded => Ok(()),
        ExecReport::Failed(errno) => Err(Error::Os(errno)),
        ExecReport::Malformed => Err(Error::ControlProtocol),
    }
}

/// What the launch comes to: success, the child's error number, or a fault
/// of the protocol.
pub fn report_outcome(report: ExecReport) -> (r: Result<(), Error>)
    ensures
        r == outcome_of(report),
{
    match report {
        ExecReport::Succeeded => Ok(()),
        ExecReport::Failed(errno) => Err(Error::Os(errno)),
        ExecReport::Malformed => Err(Error::ControlProtocol),
    }
}

/// A child that could not replace its image, and wrote the record of its
/// error number, makes the launch fail with that very error number.
pub proof fn lemma_exec_failure_propagates(errno: i32)
    ensures
        outcome_of(report_of(record_of(errno))) == Err::<(), Error>(Error::Os(errno)),
{
    lemma_record_round_trip(errno);
}

/// A failure record reads back as the failure of the error number it was
/// built from.
pub proof fn lemma_record_round_trip(errno: i32)
    ensures
        record_of(errno).len() == RECORD_LEN,
        report_of(record_of(errno)) == ExecReport::Failed(errno),
{
    let m = record_of(errno);
    assert(m.subrange(4, 8) =~= marker());
    let u = #[verifier::truncate] (errno as u32);
    assert(((((u >> 24u32) as u8) as u32) << 24u32) | ((((u >> 16u32) as u8) as u32) << 16u32)
        | ((((u >> 8u32) as u8) as u32) << 8u32) | ((u as u8) as u32) == u) by (bit_vector);
    assert(#[verifier::truncate] ((#[verifier::truncate] (errno as u32)) as i32) == errno) by (bit_vector);
}

} // verus!
