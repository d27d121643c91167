//! The routing of a child's standard streams.
use vstd::prelude::*;

use crate::error::Error;
use crate::file_desc::{FileDesc, FIRST_FREE_FD};
use crate::anon_pipe::{anon_pipe, AnonPipe, O_CLOEXEC};
use crate::sys;

verus! {

/// Linux's `O_RDONLY` access mode.
pub const O_RDONLY: i32 = 0;

/// Linux's `O_WRONLY` access mode.
pub const O_WRONLY: i32 = 1;

/// Where a standard stream of the child comes from or goes to.
#[derive(Debug)]
pub enum Stdio {
    /// The parent's own stream.
    Inherit,
    /// The null device.
    Null,
    /// A new pipe, whose other end the parent keeps.
    MakePipe,
    /// A descriptor that the caller supplies.
    Fd(FileDesc),
}

/// What the child installs on one of its standard slots.
#[derive(Debug)]
pub enum ChildStdio {
    /// Nothing: the slot keeps what the parent has there.
    Inherit,
    /// A descriptor of the caller's, numbered above the standard slots.
    Explicit(i32),
    /// A descriptor that this value owns and the parent closes after the fork.
    Owned(FileDesc),
}

/// The parent's ends of the pipes that were asked for.
pub struct StdioPipes {
    pub stdin: Option<AnonPipe>,
    pub stdout: Option<AnonPipe>,
    pub stderr: Option<AnonPipe>,
}

/// What the child installs on its slots 0, 1 and 2.
#[derive(Debug)]
pub struct ChildPipes {
    pub stdin: ChildStdio,
    pub stdout: ChildStdio,
    pub stderr: ChildStdio,
}

impl ChildStdio {
    /// The descriptor that goes onto the slot, if any.
    pub open spec fn fd_spec(&self) -> Option<i32> {
        match self {
            ChildStdio::Inherit => None,
            ChildStdio::Explicit(fd) => Some(*fd),
            ChildStdio::Owned(fd) => Some(fd.raw()),
        }
    }

    /// The descriptor that goes onto the slot, if any.
    pub fn fd(&self) -> (r: Option<i32>)
        ensures
            r == self.fd_spec(),
    {
        match self {
            ChildStdio::Inherit => None,
            ChildStdio::Explicit(fd) => Some(*fd),
            ChildStdio::Owned(fd) => Some(fd.as_raw_fd()),
        }
    }
}

/// Whether a descriptor number is one of the three standard slots.
pub open spec fn is_std_slot(fd: i32) -> bool {
    0 <= fd <= 2
}

/// The flags with which the null device is opened: read-only for a child's
/// input, write-only otherwise, and closed on exec either way.
pub fn null_flags(readable: bool) -> (r: i32)
    ensures
        r == if readable {
            O_RDONLY | O_CLOEXEC
        } else {
            O_WRONLY | O_CLOEXEC
        },
{
    if readable {
        O_RDONLY | O_CLOEXEC
    } else {
        O_WRONLY | O_CLOEXEC
    }
}

impl Stdio {
    /// A pipe between parent and child.
    pub fn piped() -> (r: Stdio)
        ensures
            r is MakePipe,
    {
        Stdio::MakePipe
    }

    /// The null device.
    pub fn null() -> (r: Stdio)
        ensures
            r is Null,
    {
        Stdio::Null
    }

    /// The parent's own stream.
    pub fn inherit() -> (r: Stdio)
        ensures
            r is Inherit,
    {
        Stdio::Inherit
    }

    /// Decides what the child installs for this stream, and what the parent
    /// keeps. `readable` is true for the child's input. A caller's descriptor
    /// on a standard slot is duplicated first, so that installing one slot
    /// cannot overwrite a descriptor that a later slot still reads from.
    pub fn to_child_stdio(&self, readable: bool) -> (r: Result<(ChildStdio, Option<AnonPipe>), Error>)
        ensures
            r matches Err(e) ==> e is Os,
            *self is Inherit ==> r matches Ok((ChildStdio::Inherit, None)),
            *self matches Stdio::Fd(fd) ==> if is_std_slot(fd.raw()) {
                r matches Ok((c, ours)) ==> c matches ChildStdio::Owned(d) && d.raw() >= FIRST_FREE_FD
                    && ours is None
            } else {
                r matches Ok((ChildStdio::Explicit(n), None)) && n == fd.raw()
            },
            *self is MakePipe ==> (r matches Ok((c, ours)) ==> {
                &&& c matches ChildStdio::Owned(theirs)
                &&& ours matches Some(p)
                &&& p.is_read_end() == !readable
                &&& p.raw() != theirs.raw()
                &&& p.other_end() == theirs.raw()
            }),
            *self is Null ==> (r matches Ok((c, ours)) ==> c matches ChildStdio::Owned(d) && d.raw() >= 0
                && ours is None),
    {
        match self {
            Stdio::Inherit => Ok((ChildStdio::Inherit, None)),
            Stdio::Fd(fd) => {
                let raw = fd.as_raw_fd();
                if 0 <= raw && raw <= 2 {
                    match fd.duplicate() {
                        Ok(d) => Ok((ChildStdio::Owned(d), None)),
                        Err(e) => Err(e),
                    }
                } else {
                    Ok((ChildStdio::Explicit(raw), None))
                }
            },
            Stdio::MakePipe => {
                let (reader, writer) = match anon_pipe() {
                    Ok(p) => p,
                    Err(e) => return Err(e),
                };
                if readable {
                    Ok((ChildStdio::Owned(reader.into_file_desc()), Some(writer)))
                } else {
                    Ok((ChildStdio::Owned(writer.into_file_desc()), Some(reader)))
                }
            },
            Stdio::Null => {
                match sys::open("/dev/null", null_flags(readable)) {
                    Ok(fd) => Ok((ChildStdio::Owned(FileDesc::new(fd)), None)),
                    Err(code) => Err(Error::Os(code)),
                }
            },
        }
    }
}

impl From<AnonPipe> for Stdio {
    fn from(pipe: AnonPipe) -> (r: Stdio) {
        Stdio::Fd(pipe.into_file_desc())
    }
}

impl vstd::std_specs::convert::FromSpecImpl<AnonPipe> for Stdio {
    open spec fn obeys_from_spec() -> bool {
        true
    }

    open spec fn from_spec(pipe: AnonPipe) -> Stdio {
        Stdio::Fd(pipe.file_desc())
    }
}

impl From<FileDesc> for Stdio {
    fn from(fd: FileDesc) -> (r: Stdio) {
        Stdio::Fd(fd)
    }
}

impl vstd::std_specs::convert::FromSpecImpl<FileDesc> for Stdio {
    open spec fn obeys_from_spec() -> bool {
        true
    }

    open spec fn from_spec(fd: FileDesc) -> Stdio {
        Stdio::Fd(fd)
    }
}

} // verus!
