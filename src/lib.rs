//! Runs an executable image held in memory as a child process.
//!
//! The library holds the logic of launching such an image: the routing of the
//! standard streams, the wire format of the control pipe that reports a failed
//! exec to the parent, the decoding of wait statuses, the process handle with
//! its cached status, and the drain that collects two output pipes at once.
//! Every system call is made through `nix`, and every wait-status macro is
//! read through `libc`, each behind a small trusted wrapper.
use vstd::prelude::*;

pub mod anon_pipe;
pub mod bytes;
pub mod child;
pub mod command_env;
pub mod control;
pub mod cvt;
pub mod error;
pub mod executable;
pub mod file_desc;
pub mod output;
pub mod process;
pub mod status;
pub mod stdio;
mod sys;

pub use child::{Child, ChildStderr, ChildStdin, ChildStdout};
pub use error::Error;
pub use executable::MemFdExecutable;
pub use output::Output;
pub use status::ExitStatus;
pub use stdio::Stdio;
