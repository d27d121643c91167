//! Wait-status words and their POSIX reading.
use vstd::prelude::*;

verus! {

/// Relies on libc::WIFEXITED: the low seven bits of the status are zero.
#[verifier::external_body]
fn wifexited(status: i32) -> (r: bool)
    ensures
        r == (status & 0x7f == 0),
{
    libc::WIFEXITED(status)
}

/// Relies on libc::WEXITSTATUS: the second byte of the status.
#[verifier::external_body]
fn wexitstatus(status: i32) -> (r: i32)
    ensures
        r == (status >> 8) & 0xff,
{
    libc::WEXITSTATUS(status)
}

/// Relies on libc::WIFSIGNALED: the low seven bits hold neither 0 nor 0x7f.
#[verifier::external_body]
fn wifsignaled(status: i32) -> (r: bool)
    ensures
        r == (status & 0x7f != 0 && status & 0x7f != 0x7f),
{
    libc::WIFSIGNALED(status)
}

/// Relies on libc::WTERMSIG: the low seven bits of the status.
#[verifier::external_body]
fn wtermsig(status: i32) -> (r: i32)
    ensures
        r == status & 0x7f,
{
    libc::WTERMSIG(status)
}

/// Relies on libc::WCOREDUMP: bit 0x80 of the status.
#[verifier::external_body]
fn wcoredump(status: i32) -> (r: bool)
    ensures
        r == (status & 0x80 != 0),
{
    libc::WCOREDUMP(status)
}

/// Relies on libc::WIFSTOPPED: the low byte of the status is 0x7f.
#[verifier::external_body]
fn wifstopped(status: i32) -> (r: bool)
    ensures
        r == (status & 0xff == 0x7f),
{
    libc::WIFSTOPPED(status)
}

/// Relies on libc::WSTOPSIG: the second byte of the status.
#[verifier::external_body]
fn wstopsig(status: i32) -> (r: i32)
    ensures
        r == (status >> 8) & 0xff,
{
    libc::WSTOPSIG(status)
}

/// Relies on libc::WIFCONTINUED: the status is exactly 0xffff.
#[verifier::external_body]
fn wifcontinued(status: i32) -> (r: bool)
    ensures
        r == (status == 0xffff),
{
    libc::WIFCONTINUED(status)
}

/// What a wait call reports of a child whose state changed.
#[derive(PartialEq, Eq, Structural, Clone, Copy, Debug)]
pub enum ChildState {
    /// It exited normally with this code.
    Exited(i32),
    /// A signal ended it; the flag tells whether it dumped core.
    Signaled(i32, bool),
    /// A signal stopped it.
    Stopped(i32),
    /// A stopped child was resumed.
    Continued,
    /// A child under ptrace stopped for its tracer.
    Traced,
}

impl ChildState {
    /// The values that the platform's wait-status word can carry.
    pub open spec fn valid(self) -> bool {
        match self {
            ChildState::Exited(code) => 0 <= code <= 0xff,
            ChildState::Signaled(sig, _) => 1 <= sig <= 0x7e,
            ChildState::Stopped(sig) => 0 <= sig <= 0xff,
            ChildState::Continued => true,
            ChildState::Traced => true,
        }
    }

    /// The states that the library keeps as a status word.
    pub open spec fn encodable(self) -> bool {
        self.valid() && !(self is Traced)
    }

    /// Whether the child has ended, by exiting or by a signal.
    pub open spec fn is_termination(self) -> bool {
        self is Exited || self is Signaled
    }

    /// Whether the child has ended, by exiting or by a signal.
    pub fn ended(&self) -> (r: bool)
        ensures
            r == self.is_termination(),
    {
        match self {
            ChildState::Exited(_) | ChildState::Signaled(_, _) => true,
            _ => false,
        }
    }
}

/// The raw wait-status word of a child, with its POSIX reading.
#[derive(PartialEq, Eq, Structural, Clone, Copy, Debug)]
pub struct ExitStatus(i32);

/// The exit status that a `ExitStatus::exit_ok` call found nonzero.
#[derive(PartialEq, Eq, Structural, Clone, Copy, Debug)]
pub struct ExitStatusError(i32);

pub open spec fn exited_of(raw: i32) -> bool {
    raw & 0x7f == 0
}

pub open spec fn signaled_of(raw: i32) -> bool {
    raw & 0x7f != 0 && raw & 0x7f != 0x7f
}

pub open spec fn stopped_of(raw: i32) -> bool {
    raw & 0xff == 0x7f
}

pub open spec fn code_of(raw: i32) -> Option<i32> {
    if exited_of(raw) {
        Some((raw >> 8) & 0xff)
    } else {
        None
    }
}

pub open spec fn signal_of(raw: i32) -> Option<i32> {
    if signaled_of(raw) {
        Some(raw & 0x7f)
    } else {
        None
    }
}

pub open spec fn core_dumped_of(raw: i32) -> bool {
    signaled_of(raw) && raw & 0x80 != 0
}

pub open spec fn stopped_signal_of(raw: i32) -> Option<i32> {
    if stopped_of(raw) {
        Some((raw >> 8) & 0xff)
    } else {
        None
    }
}

pub open spec fn continued_of(raw: i32) -> bool {
    raw == 0xffff
}

/// The wait-status word that the platform writes for a state.
pub open spec fn encode_state(s: ChildState) -> i32 {
    match s {
        ChildState::Exited(code) => code << 8u32,
        ChildState::Signaled(sig, core) => if core {
            sig | 0x80
        } else {
            sig
        },
        ChildState::Stopped(sig) => (sig << 8u32) | 0x7f,
        ChildState::Continued => 0xffff,
        ChildState::Traced => 0x7f,
    }
}


/// Whether a status word is one that the platform writes for an ended child.
pub open spec fn is_termination_word(raw: i32) -> bool {
    exists|s: ChildState| s.encodable() && s.is_termination() && encode_state(s) == raw
}

impl ExitStatus {
    pub closed spec fn raw(self) -> i32 {
        self.0
    }

    /// Wraps a raw wait-status word.
    pub fn new(status: i32) -> (r: ExitStatus)
        ensures
            r.raw() == status,
    {
        ExitStatus(status)
    }

    /// The status word for a state that a wait call reported.
    pub fn from_state(s: ChildState) -> (r: ExitStatus)
        requires
            s.encodable(),
        ensures
            r.raw() == encode_state(s),
    {
        match s {
            ChildState::Exited(code) => ExitStatus(code << 8u32),
            ChildState::Signaled(sig, core) => if core {
                ExitStatus(sig | 0x80)
            } else {
                ExitStatus(sig)
            },
            ChildState::Stopped(sig) => ExitStatus((sig << 8u32) | 0x7f),
            ChildState::Continued => ExitStatus(0xffff),
            ChildState::Traced => ExitStatus(0x7f),
        }
    }

    /// Whether the child exited normally.
    pub fn exited(&self) -> (r: bool)
        ensures
            r == exited_of(self.raw()),
    {
        wifexited(self.0)
    }

    /// `Ok` for the status of a child that exited with code 0, which is the
    /// status word 0; the status itself as the error otherwise.
    pub fn exit_ok(&self) -> (r: Result<(), ExitStatusError>)
        ensures
            self.raw() == 0 <==> r is Ok,
            r matches Err(e) ==> e.raw() == self.raw(),
    {
        if self.0 == 0 {
            Ok(())
        } else {
            Err(ExitStatusError(self.0))
        }
    }

    /// The exit code, where the child exited normally.
    pub fn code(&self) -> (r: Option<i32>)
        ensures
            r == code_of(self.raw()),
    {
        if wifexited(self.0) {
            Some(wexitstatus(self.0))
        } else {
            None
        }
    }

    /// The signal that ended the child, where one did.
    pub fn signal(&self) -> (r: Option<i32>)
        ensures
            r == signal_of(self.raw()),
    {
        if wifsignaled(self.0) {
            Some(wtermsig(self.0))
        } else {
            None
        }
    }

    /// Whether a signal ended the child and it dumped core.
    pub fn core_dumped(&self) -> (r: bool)
        ensures
            r == core_dumped_of(self.raw()),
    {
        wifsignaled(self.0) && wcoredump(self.0)
    }

    /// The signal that stopped the child, where one did.
    pub fn stopped_signal(&self) -> (r: Option<i32>)
        ensures
            r == stopped_signal_of(self.raw()),
    {
        if wifstopped(self.0) {
            Some(wstopsig(self.0))
        } else {
            None
        }
    }

    /// Whether a stopped child was resumed.
    pub fn continued(&self) -> (r: bool)
        ensures
            r == continued_of(self.raw()),
    {
        wifcontinued(self.0)
    }

    /// The raw wait-status word.
    pub fn into_raw(&self) -> (r: i32)
        ensures
            r == self.raw(),
    {
        self.0
    }
}

impl ExitStatusError {
    pub closed spec fn raw(self) -> i32 {
        self.0
    }

    /// The exit status that was found nonzero.
    pub fn into_status(self) -> (r: ExitStatus)
        ensures
            r.raw() == self.raw(),
    {
        ExitStatus(self.0)
    }
}

impl From<i32> for ExitStatus {
    fn from(a: i32) -> (r: ExitStatus)
        ensures
            r.raw() == a,
    {
        ExitStatus(a)
    }
}

impl vstd::std_specs::convert::FromSpecImpl<i32> for ExitStatus {
    open spec fn obeys_from_spec() -> bool {
        true
    }

    closed spec fn from_spec(a: i32) -> ExitStatus {
        ExitStatus(a)
    }
}

/// A state that a wait call reports reads back from its status word: a
/// normal exit gives its code and no signal, a signal gives its number, its
/// core-dump flag and no code, a stop gives its signal, and a resumption is
/// recognised as such; no word reads as two of these at once.
pub proof fn lemma_decode_encoded_state(s: ChildState)
    requires
        s.encodable(),
    ensures
        exited_of(encode_state(s)) == (s is Exited),
        code_of(encode_state(s)) == (match s {
            ChildState::Exited(code) => Some(code),
            _ => None,
        }),
        signal_of(encode_state(s)) == (match s {
            ChildState::Signaled(sig, _) => Some(sig),
            _ => None,
        }),
        core_dumped_of(encode_state(s)) == (match s {
            ChildState::Signaled(_, core) => core,
            _ => false,
        }),
        stopped_signal_of(encode_state(s)) == (match s {
            ChildState::Stopped(sig) => Some(sig),
            _ => None,
        }),
        continued_of(encode_state(s)) == (s is Continued),
{
    match s {
        ChildState::Exited(code) => {
            assert((code << 8u32) & 0x7f == 0) by (bit_vector)
                requires 0 <= code <= 0xff;
            assert(((code << 8u32) >> 8u32) & 0xff == code) by (bit_vector)
                requires 0 <= code <= 0xff;
            assert((code << 8u32) & 0xff != 0x7f) by (bit_vector)
                requires 0 <= code <= 0xff;
            assert((code << 8u32) != 0xffff) by (bit_vector)
                requires 0 <= code <= 0xff;
        },
        ChildState::Signaled(sig, core) => {
            assert((sig | 0x80) & 0x7f == sig && (sig | 0x80) & 0x80 != 0) by (bit_vector)
                requires 1 <= sig <= 0x7e;
            assert(sig & 0x7f == sig && sig & 0x80 == 0) by (bit_vector)
                requires 1 <= sig <= 0x7e;
            assert((sig | 0x80) & 0xff != 0x7f && sig & 0xff != 0x7f) by (bit_vector)
                requires 1 <= sig <= 0x7e;
            assert((sig | 0x80) != 0xffff && sig != 0xffff) by (bit_vector)
                requires 1 <= sig <= 0x7e;
        },
        ChildState::Stopped(sig) => {
            assert(((sig << 8u32) | 0x7f) & 0x7f == 0x7f) by (bit_vector)
                requires 0 <= sig <= 0xff;
            assert(((sig << 8u32) | 0x7f) & 0xff == 0x7f) by (bit_vector)
                requires 0 <= sig <= 0xff;
            assert((((sig << 8u32) | 0x7f) >> 8u32) & 0xff == sig) by (bit_vector)
                requires 0 <= sig <= 0xff;
            assert(((sig << 8u32) | 0x7f) != 0xffff) by (bit_vector)
                requires 0 <= sig <= 0xff;
        },
        ChildState::Continued => {
            assert(0xffffi32 & 0x7f == 0x7f) by (bit_vector);
            assert(0xffffi32 & 0xff == 0xff) by (bit_vector);
        },
        ChildState::Traced => {},
    }
}

/// The status word of an ended child gives its exit code or its signal.
pub proof fn lemma_termination_word_reads(raw: i32)
    requires
        is_termination_word(raw),
    ensures
        code_of(raw) is Some || signal_of(raw) is Some,
{
    let s = choose|s: ChildState| s.encodable() && s.is_termination() && encode_state(s) == raw;
    lemma_decode_encoded_state(s);
}

/// A status word reads as at most one of a normal exit, an ending signal and
/// a stop.
pub proof fn lemma_status_readings_exclusive(raw: i32)
    ensures
        !(exited_of(raw) && signaled_of(raw)),
        !(exited_of(raw) && stopped_of(raw)),
        !(signaled_of(raw) && stopped_of(raw)),
        code_of(raw) is Some ==> signal_of(raw) is None,
{
    assert(raw & 0xff == 0x7f ==> raw & 0x7f == 0x7f) by (bit_vector);
}

} // verus!
