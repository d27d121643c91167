//! The image to run with its arguments, environment, working directory and
//! streams, and the stages of launching it that happen before and after the
//! fork.
use vstd::prelude::*;

use crate::bytes::{contains_nul, copy_bytes, has_nul};
use crate::child::Child;
use crate::control::{decode_report, report_outcome, RECORD_LEN};
use crate::command_env::{
    any_nul, captured, construct_envp, envp_of, is_path, vars_view, with_all, with_change, without_name,
    CommandEnv, Var,
};
use crate::error::{Error, EINTR};
use crate::file_desc::{FileDesc, FIRST_FREE_FD};
use crate::anon_pipe::{anon_pipe, AnonPipe};
use crate::process::Process;
use crate::stdio::{is_std_slot, ChildPipes, ChildStdio, Stdio, StdioPipes};
use crate::sys;

verus! {

/// What an argument with a NUL byte is replaced by: `<string-with-nul>`.
pub open spec fn nul_placeholder() -> Seq<u8> {
    seq![
        0x3cu8, 0x73u8, 0x74u8, 0x72u8, 0x69u8, 0x6eu8, 0x67u8, 0x2du8, 0x77u8,
        0x69u8, 0x74u8, 0x68u8, 0x2du8, 0x6eu8, 0x75u8, 0x6cu8, 0x3eu8,
    ]
}

/// A byte string as the child gets it: itself, or the placeholder where it
/// holds a NUL byte.
pub open spec fn c_arg(s: Seq<u8>) -> Seq<u8> {
    if has_nul(s) {
        nul_placeholder()
    } else {
        s
    }
}

/// The child's copy of a byte string; a NUL byte in it sets `saw_nul`.
pub fn os2c(s: &[u8], saw_nul: &mut bool) -> (r: Vec<u8>)
    ensures
        r@ == c_arg(s@),
        *final(saw_nul) == (*old(saw_nul) || has_nul(s@)),
{
    if contains_nul(s) {
        *saw_nul = true;
        let r = vec![
            0x3cu8, 0x73u8, 0x74u8, 0x72u8, 0x69u8, 0x6eu8, 0x67u8, 0x2du8, 0x77u8,
            0x69u8, 0x74u8, 0x68u8, 0x2du8, 0x6eu8, 0x75u8, 0x6cu8, 0x3eu8,
        ];
        assert(r@ =~= nul_placeholder());
        r
    } else {
        copy_bytes(s)
    }
}

/// What the parent holds between setting a launch up and forking.
pub struct SpawnPlan {
    /// The parent's ends of the pipes that were asked for.
    pub ours: StdioPipes,
    /// What the child installs on its standard slots.
    pub theirs: ChildPipes,
    /// The child's environment, where it differs from the parent's.
    pub envp: Option<Vec<Vec<u8>>>,
    /// The end of the control pipe that the parent reads.
    pub control_read: AnonPipe,
    /// The end of the control pipe that the child writes a failure to.
    pub control_write: AnonPipe,
}

/// An executable image held in memory, with the arguments, environment,
/// working directory and standard streams to run it with.
pub struct MemFdExecutable<'a> {
    code: &'a [u8],
    argv: Vec<Vec<u8>>,
    env: CommandEnv,
    cwd: Option<Vec<u8>>,
    /// Where the child's standard input comes from; the parent's by default.
    pub stdin: Option<Stdio>,
    /// Where the child's standard output goes; the parent's by default.
    pub stdout: Option<Stdio>,
    /// Where the child's standard error goes; the parent's by default.
    pub stderr: Option<Stdio>,
    saw_nul: bool,
}

impl<'a> MemFdExecutable<'a> {
    /// The image.
    pub closed spec fn code(&self) -> Seq<u8> {
        self.code@
    }

    /// The argument vector, the program's name first.
    pub closed spec fn argv(&self) -> Seq<Seq<u8>> {
        self.argv@.map_values(|a: Vec<u8>| a@)
    }

    /// The changes to the environment.
    pub closed spec fn env_spec(&self) -> CommandEnv {
        self.env
    }

    /// The working directory, where one was set.
    pub closed spec fn cwd_spec(&self) -> Option<Seq<u8>> {
        match self.cwd {
            Some(d) => Some(d@),
            None => None,
        }
    }

    /// Whether a name, argument, directory or variable held a NUL byte.
    pub closed spec fn nul_seen(&self) -> bool {
        self.saw_nul
    }

    /// The configuration of the child's standard input.
    pub closed spec fn stdin_cfg(&self) -> Option<Stdio> {
        self.stdin
    }

    /// The configuration of the child's standard output.
    pub closed spec fn stdout_cfg(&self) -> Option<Stdio> {
        self.stdout
    }

    /// The configuration of the child's standard error.
    pub closed spec fn stderr_cfg(&self) -> Option<Stdio> {
        self.stderr
    }

    pub open spec fn wf(&self) -> bool {
        &&& self.argv().len() >= 1
        &&& self.env_spec().wf()
    }

    /// An image to run under the name `name`, which is the child's `argv[0]`.
    pub fn new(name: &[u8], code: &'a [u8]) -> (r: Self)
        ensures
            r.wf(),
            r.code() == code@,
            r.argv() == seq![c_arg(name@)],
            r.nul_seen() == has_nul(name@),
            r.cwd_spec() is None,
            !r.env_spec().cleared(),
            r.env_spec().changes().len() == 0,
            r.stdin_cfg() is None && r.stdout_cfg() is None && r.stderr_cfg() is None,
    {
        let mut saw_nul = false;
        let program = os2c(name, &mut saw_nul);
        let mut argv: Vec<Vec<u8>> = Vec::new();
        argv.push(program);
        let r = MemFdExecutable {
            code,
            argv,
            env: CommandEnv::new(),
            cwd: None,
            stdin: None,
            stdout: None,
            stderr: None,
            saw_nul,
        };
        assert(r.argv() =~= seq![c_arg(name@)]);
        r
    }

    /// Adds an argument.
    pub fn arg(&mut self, arg: &[u8]) -> (r: &mut Self)
        requires
            old(self).wf(),
        ensures
            r.wf(),
            r.argv() == old(self).argv().push(c_arg(arg@)),
            r.nul_seen() == (old(self).nul_seen() || has_nul(arg@)),
            r.code() == old(self).code(),
            r.env_spec() == old(self).env_spec(),
            r.cwd_spec() == old(self).cwd_spec(),
            *final(self) == *final(r),
    {
        let a = os2c(arg, &mut self.saw_nul);
        self.argv.push(a);
        assert(self.argv() =~= old(self).argv().push(c_arg(arg@)));
        self
    }

    /// Adds arguments, in their order.
    pub fn args(&mut self, args: &[Vec<u8>]) -> (r: &mut Self)
        requires
            old(self).wf(),
        ensures
            r.wf(),
            r.argv() == old(self).argv() + args@.map_values(|a: Vec<u8>| c_arg(a@)),
            r.nul_seen() == (old(self).nul_seen() || exists|i: int|
                0 <= i < args@.len() && has_nul(#[trigger] args@[i]@)),
            r.code() == old(self).code(),
            r.env_spec() == old(self).env_spec(),
            r.cwd_spec() == old(self).cwd_spec(),
            *final(self) == *final(r),
    {
        let mut i: usize = 0;
        while i < args.len()
            invariant
                self.wf(),
                i <= args@.len(),
                self.argv() == old(self).argv() + args@.take(i as int).map_values(|a: Vec<u8>| c_arg(a@)),
                self.nul_seen() == (old(self).nul_seen() || exists|k: int|
                    0 <= k < i && has_nul(#[trigger] args@[k]@)),
                self.code() == old(self).code(),
                self.env_spec() == old(self).env_spec(),
                self.cwd_spec() == old(self).cwd_spec(),
            decreases args@.len() - i,
        {
            let ghost prev = self.argv();
            let a = os2c(args[i].as_slice(), &mut self.saw_nul);
            self.argv.push(a);
            assert(self.argv() =~= prev.push(c_arg(args@[i as int]@)));
            assert(args@.take(i + 1).map_values(|a: Vec<u8>| c_arg(a@)) =~= args@.take(
                i as int,
            ).map_values(|a: Vec<u8>| c_arg(a@)).push(c_arg(args@[i as int]@)));
            assert(self.argv() =~= old(self).argv() + args@.take(i + 1).map_values(
                |a: Vec<u8>| c_arg(a@),
            ));
            i = i + 1;
        }
        assert(args@.take(args@.len() as int) =~= args@);
        self
    }

    /// Sets a variable of the child's environment.
    pub fn env(&mut self, key: &[u8], val: &[u8]) -> (r: &mut Self)
        requires
            old(self).wf(),
        ensures
            r.wf(),
            r.env_spec().changes() == with_change(old(self).env_spec().changes(), (key@, Some(val@))),
            r.env_spec().cleared() == old(self).env_spec().cleared(),
            r.env_spec().saw_path() == (old(self).env_spec().saw_path() || is_path(key@)),
            r.argv() == old(self).argv(),
            r.nul_seen() == old(self).nul_seen(),
            r.code() == old(self).code(),
            r.cwd_spec() == old(self).cwd_spec(),
            *final(self) == *final(r),
    {
        self.env.set(key, val);
        self
    }

    /// Sets variables of the child's environment, in their order.
    pub fn envs(&mut self, vars: &[Var]) -> (r: &mut Self)
        requires
            old(self).wf(),
        ensures
            r.wf(),
            r.env_spec().changes() == with_all(old(self).env_spec().changes(), vars_view(vars@)),
            r.env_spec().cleared() == old(self).env_spec().cleared(),
            r.argv() == old(self).argv(),
            r.nul_seen() == old(self).nul_seen(),
            r.code() == old(self).code(),
            r.cwd_spec() == old(self).cwd_spec(),
            *final(self) == *final(r),
    {
        let mut i: usize = 0;
        while i < vars.len()
            invariant
                self.wf(),
                i <= vars@.len(),
                self.env_spec().changes() == with_all(old(self).env_spec().changes(), vars_view(vars@).take(i as int)),
                self.env_spec().cleared() == old(self).env_spec().cleared(),
                self.argv() == old(self).argv(),
                self.nul_seen() == old(self).nul_seen(),
                self.code() == old(self).code(),
                self.cwd_spec() == old(self).cwd_spec(),
            decreases vars@.len() - i,
        {
            assert(vars_view(vars@).take(i + 1).drop_last() =~= vars_view(vars@).take(i as int));
            self.env.set(vars[i].0.as_slice(), vars[i].1.as_slice());
            i = i + 1;
        }
        assert(vars_view(vars@).take(vars@.len() as int) =~= vars_view(vars@));
        self
    }

    /// Removes a variable from the child's environment.
    pub fn env_remove(&mut self, key: &[u8]) -> (r: &mut Self)
        requires
            old(self).wf(),
        ensures
            r.wf(),
            r.env_spec().changes() == if old(self).env_spec().cleared() {
                without_name(old(self).env_spec().changes(), key@)
            } else {
                with_change(old(self).env_spec().changes(), (key@, None))
            },
            r.env_spec().cleared() == old(self).env_spec().cleared(),
            r.env_spec().saw_path() == (old(self).env_spec().saw_path() || is_path(key@)),
            r.argv() == old(self).argv(),
            r.nul_seen() == old(self).nul_seen(),
            r.code() == old(self).code(),
            r.cwd_spec() == old(self).cwd_spec(),
            *final(self) == *final(r),
    {
        self.env.remove(key);
        self
    }

    /// Leaves the parent's environment out of the child's, and drops the
    /// changes made so far.
    pub fn env_clear(&mut self) -> (r: &mut Self)
        requires
            old(self).wf(),
        ensures
            r.wf(),
            r.env_spec().cleared(),
            r.env_spec().changes().len() == 0,
            r.argv() == old(self).argv(),
            r.nul_seen() == old(self).nul_seen(),
            r.code() == old(self).code(),
            r.cwd_spec() == old(self).cwd_spec(),
            *final(self) == *final(r),
    {
        self.env.clear();
        self
    }

    /// Sets the child's working directory.
    pub fn cwd(&mut self, dir: &[u8]) -> (r: &mut Self)
        requires
            old(self).wf(),
        ensures
            r.wf(),
            r.cwd_spec() == Some(c_arg(dir@)),
            r.nul_seen() == (old(self).nul_seen() || has_nul(dir@)),
            r.argv() == old(self).argv(),
            r.env_spec() == old(self).env_spec(),
            r.code() == old(self).code(),
            *final(self) == *final(r),
    {
        self.cwd = Some(os2c(dir, &mut self.saw_nul));
        self
    }

    /// Sets where the child's standard input comes from.
    pub fn stdin(&mut self, cfg: Stdio) -> (r: &mut Self)
        requires
            old(self).wf(),
        ensures
            r.wf(),
            r.stdin_cfg() == Some(cfg),
            r.stdout_cfg() == old(self).stdout_cfg(),
            r.stderr_cfg() == old(self).stderr_cfg(),
            r.argv() == old(self).argv(),
            r.env_spec() == old(self).env_spec(),
            r.cwd_spec() == old(self).cwd_spec(),
            r.nul_seen() == old(self).nul_seen(),
            r.code() == old(self).code(),
            *final(self) == *final(r),
    {
        self.stdin = Some(cfg);
        self
    }

    /// Sets where the child's standard output goes.
    pub fn stdout(&mut self, cfg: Stdio) -> (r: &mut Self)
        requires
            old(self).wf(),
        ensures
            r.wf(),
            r.stdout_cfg() == Some(cfg),
            r.stdin_cfg() == old(self).stdin_cfg(),
            r.stderr_cfg() == old(self).stderr_cfg(),
            r.argv() == old(self).argv(),
            r.env_spec() == old(self).env_spec(),
            r.cwd_spec() == old(self).cwd_spec(),
            r.nul_seen() == old(self).nul_seen(),
            r.code() == old(self).code(),
            *final(self) == *final(r),
    {
        self.stdout = Some(cfg);
        self
    }

    /// Sets where the child's standard error goes.
    pub fn stderr(&mut self, cfg: Stdio) -> (r: &mut Self)
        requires
            old(self).wf(),
        ensures
            r.wf(),
            r.stderr_cfg() == Some(cfg),
            r.stdin_cfg() == old(self).stdin_cfg(),
            r.stdout_cfg() == old(self).stdout_cfg(),
            r.argv() == old(self).argv(),
            r.env_spec() == old(self).env_spec(),
            r.cwd_spec() == old(self).cwd_spec(),
            r.nul_seen() == old(self).nul_seen(),
            r.code() == old(self).code(),
            *final(self) == *final(r),
    {
        self.stderr = Some(cfg);
        self
    }

    /// Replaces the program's name, the child's `argv[0]`.
    pub fn set_program(&mut self, program: &[u8])
        requires
            old(self).wf(),
        ensures
            final(self).wf(),
            final(self).argv() == old(self).argv().update(0, c_arg(program@)),
            final(self).nul_seen() == (old(self).nul_seen() || has_nul(program@)),
            final(self).env_spec() == old(self).env_spec(),
            final(self).cwd_spec() == old(self).cwd_spec(),
            final(self).code() == old(self).code(),
    {
        let a = os2c(program, &mut self.saw_nul);
        self.argv.set(0, a);
        assert(self.argv() =~= old(self).argv().update(0, c_arg(program@)));
    }

    /// The child's working directory, where one was set.
    pub fn get_cwd(&self) -> (r: &Option<Vec<u8>>)
        ensures
            self.cwd_spec() == match *r {
                Some(d) => Some(d@),
                None => None::<Seq<u8>>,
            },
    {
        &self.cwd
    }

    /// The program's name, the child's `argv[0]`.
    pub fn get_program_cstr(&self) -> (r: &Vec<u8>)
        requires
            self.wf(),
        ensures
            r@ == self.argv()[0],
    {
        &self.argv[0]
    }

    /// The child's argument vector.
    pub fn get_argv(&self) -> (r: &Vec<Vec<u8>>)
        ensures
            r@.map_values(|a: Vec<u8>| a@) == self.argv(),
    {
        &self.argv
    }

    /// Whether the child's `PATH` may differ from the parent's.
    pub fn env_saw_path(&self) -> (r: bool)
        ensures
            r == (self.env_spec().saw_path() || self.env_spec().cleared()),
    {
        self.env.have_changed_path()
    }

    /// Whether the program's name holds a `/`.
    pub fn program_is_path(&self) -> (r: bool)
        requires
            self.wf(),
        ensures
            r == exists|i: int| 0 <= i < self.argv()[0].len() && self.argv()[0][i] == 0x2f,
    {
        let p = &self.argv[0];
        let mut i: usize = 0;
        while i < p.len()
            invariant
                p@ == self.argv()[0],
                i <= p@.len(),
                forall|k: int| 0 <= k < i ==> p@[k] != 0x2f,
            decreases p@.len() - i,
        {
            if p[i] == 0x2f {
                return true;
            }
            i = i + 1;
        }
        false
    }

    /// Whether a name, argument, directory or variable held a NUL byte.
    pub fn saw_nul(&self) -> (r: bool)
        ensures
            r == self.nul_seen(),
    {
        self.saw_nul
    }

    /// The child's environment entries where the changes alter the parent's
    /// environment `base`, and `None` where the child gets it as it is. An
    /// entry that holds a NUL byte is left out and recorded.
    pub fn capture_env(&mut self, base: &Vec<Var>) -> (r: Option<Vec<Vec<u8>>>)
        requires
            old(self).wf(),
        ensures
            final(self).wf(),
            final(self).argv() == old(self).argv(),
            final(self).env_spec() == old(self).env_spec(),
            final(self).cwd_spec() == old(self).cwd_spec(),
            final(self).code() == old(self).code(),
            final(self).stdin_cfg() == old(self).stdin_cfg(),
            final(self).stdout_cfg() == old(self).stdout_cfg(),
            final(self).stderr_cfg() == old(self).stderr_cfg(),
            old(self).env_spec().is_unchanged_spec() ==> r is None && final(self).nul_seen() == old(self).nul_seen(),
            !old(self).env_spec().is_unchanged_spec() ==> {
                let vars = captured(old(self).env_spec().cleared(), old(self).env_spec().changes(), vars_view(base@));
                &&& (r matches Some(e) && e@.map_values(|x: Vec<u8>| x@) == envp_of(vars))
                &&& final(self).nul_seen() == (old(self).nul_seen() || any_nul(vars))
            },
    {
        match self.env.capture_if_changed(base) {
            Some(vars) => Some(construct_envp(&vars, &mut self.saw_nul)),
            None => None,
        }
    }

    /// Decides, for each standard stream, what the child installs and what
    /// the parent keeps. A stream that was not configured takes `default`,
    /// but the input takes the null device where `needs_stdin` is false.
    pub fn setup_io(&self, default: Stdio, needs_stdin: bool) -> (r: Result<(StdioPipes, ChildPipes), Error>)
        ensures
            r matches Err(e) ==> e is Os,
            r matches Ok((ours, theirs)) ==> {
                let cin = effective(self.stdin_cfg(), if needs_stdin {
                    default
                } else {
                    Stdio::Null
                });
                let cout = effective(self.stdout_cfg(), default);
                let cerr = effective(self.stderr_cfg(), default);
                &&& ours.stdin is Some <==> cin is MakePipe
                &&& ours.stdout is Some <==> cout is MakePipe
                &&& ours.stderr is Some <==> cerr is MakePipe
                &&& ours.stdin matches Some(p) ==> !p.is_read_end()
                &&& ours.stdout matches Some(p) ==> p.is_read_end()
                &&& ours.stderr matches Some(p) ==> p.is_read_end()
                &&& cin is Inherit ==> theirs.stdin is Inherit
                &&& cout is Inherit ==> theirs.stdout is Inherit
                &&& cerr is Inherit ==> theirs.stderr is Inherit
                &&& routed_off_std_slots(cin, theirs.stdin)
                &&& routed_off_std_slots(cout, theirs.stdout)
                &&& routed_off_std_slots(cerr, theirs.stderr)
            },
            ({
                let cin = effective(self.stdin_cfg(), if needs_stdin {
                    default
                } else {
                    Stdio::Null
                });
                no_outside_call(cin) && no_outside_call(effective(self.stdout_cfg(), default))
                    && no_outside_call(effective(self.stderr_cfg(), default))
            }) ==> r is Ok,
    {
        let null = Stdio::Null;
        let stdin = match &self.stdin {
            Some(c) => c,
            None => if needs_stdin {
                &default
            } else {
                &null
            },
        };
        let stdout = match &self.stdout {
            Some(c) => c,
            None => &default,
        };
        let stderr = match &self.stderr {
            Some(c) => c,
            None => &default,
        };
        let (their_stdin, our_stdin) = stdin.to_child_stdio(true)?;
        let (their_stdout, our_stdout) = stdout.to_child_stdio(false)?;
        let (their_stderr, our_stderr) = stderr.to_child_stdio(false)?;
        let ours = StdioPipes { stdin: our_stdin, stdout: our_stdout, stderr: our_stderr };
        let theirs = ChildPipes { stdin: their_stdin, stdout: their_stdout, stderr: their_stderr };
        Ok((ours, theirs))
    }

    /// Everything that is decided before the fork: the child's environment,
    /// the routing of its standard streams (the parent's by default), and the
    /// control pipe. Refuses with `NulByte` where any name, argument,
    /// directory or environment entry held a NUL byte.
    pub fn prepare_spawn(&mut self, base: &Vec<Var>) -> (r: Result<SpawnPlan, Error>)
        requires
            old(self).wf(),
        ensures
            final(self).wf(),
            final(self).argv() == old(self).argv(),
            final(self).env_spec() == old(self).env_spec(),
            final(self).cwd_spec() == old(self).cwd_spec(),
            final(self).code() == old(self).code(),
            final(self).nul_seen() == (old(self).nul_seen() || (!old(self).env_spec().is_unchanged_spec()
                && any_nul(
                captured(old(self).env_spec().cleared(), old(self).env_spec().changes(), vars_view(base@)),
            ))),
            final(self).nul_seen() <==> r == Err::<SpawnPlan, Error>(Error::NulByte),
            r matches Err(e) ==> e is Os || e is NulByte,
            r matches Ok(plan) ==> {
                &&& plan.control_read.is_read_end()
                &&& !plan.control_write.is_read_end()
                &&& old(self).env_spec().is_unchanged_spec() ==> plan.envp is None
                &&& !old(self).env_spec().is_unchanged_spec() ==> (plan.envp matches Some(e)
                    && e@.map_values(|x: Vec<u8>| x@) == envp_of(
                    captured(old(self).env_spec().cleared(), old(self).env_spec().changes(), vars_view(base@)),
                ))
            },
    {
        let envp = self.capture_env(base);
        if self.saw_nul {
            return Err(Error::NulByte);
        }
        let (ours, theirs) = self.setup_io(Stdio::Inherit, true)?;
        let (control_read, control_write) = anon_pipe()?;
        Ok(SpawnPlan { ours, theirs, envp, control_read, control_write })
    }

    /// Everything that is decided before the current process replaces its
    /// own image: its environment and the routing of its standard streams,
    /// which take `default` where they were not set. Refuses with `NulByte`
    /// where any name, argument, directory or environment entry held a NUL byte.
    pub fn prepare_exec(&mut self, base: &Vec<Var>, default: Stdio) -> (r: Result<
        (ChildPipes, Option<Vec<Vec<u8>>>),
        Error,
    >)
        requires
            old(self).wf(),
        ensures
            final(self).wf(),
            final(self).argv() == old(self).argv(),
            final(self).env_spec() == old(self).env_spec(),
            final(self).cwd_spec() == old(self).cwd_spec(),
            final(self).code() == old(self).code(),
            final(self).nul_seen() == (old(self).nul_seen() || (!old(self).env_spec().is_unchanged_spec()
                && any_nul(
                captured(old(self).env_spec().cleared(), old(self).env_spec().changes(), vars_view(base@)),
            ))),
            final(self).nul_seen() <==> r matches Err(Error::NulByte),
            r matches Err(e) ==> e is Os || e is NulByte,
            r matches Ok((_, envp)) ==> {
                &&& old(self).env_spec().is_unchanged_spec() ==> envp is None
                &&& !old(self).env_spec().is_unchanged_spec() ==> (envp matches Some(e)
                    && e@.map_values(|x: Vec<u8>| x@) == envp_of(
                    captured(old(self).env_spec().cleared(), old(self).env_spec().changes(), vars_view(base@)),
                ))
            },
    {
        let envp = self.capture_env(base);
        if self.saw_nul {
            return Err(Error::NulByte);
        }
        match self.setup_io(default, true) {
            Ok((_, theirs)) => Ok((theirs, envp)),
            Err(e) => Err(e),
        }
    }

    /// The child's own setup after the fork, up to the point where its image
    /// is replaced: installs the routed descriptors on slots 0, 1 and 2 in
    /// that order, enters the working directory, and empties the signal mask.
    pub fn exec_setup(&self, theirs: &ChildPipes) -> (r: Result<(), Error>)
        ensures
            r matches Err(e) ==> e is Os,
    {
        if let Some(fd) = theirs.stdin.fd() {
            install(fd, 0)?;
        }
        if let Some(fd) = theirs.stdout.fd() {
            install(fd, 1)?;
        }
        if let Some(fd) = theirs.stderr.fd() {
            install(fd, 2)?;
        }
        if let Some(dir) = &self.cwd {
            match sys::chdir(dir.as_slice()) {
                Ok(()) => {},
                Err(code) => return Err(Error::Os(code)),
            }
        }
        match sys::pthread_sigmask_clear() {
            Ok(()) => Ok(()),
            Err(code) => Err(Error::Os(code)),
        }
    }

    /// Writes the whole image to `fd`; a write that takes less of it is a
    /// `ShortWrite`.
    pub fn write_image(&self, fd: &FileDesc) -> (r: Result<(), Error>)
        ensures
            r matches Err(e) ==> e is Os || e is ShortWrite,
    {
        image_write_outcome(fd.write(self.code), self.code.len())
    }

    /// The parent's side after the fork: reads the control pipe to its end.
    /// Nothing means the child replaced its image, and the child is handed
    /// out; a failure record means it did not, and its error is reported
    /// once the child is reaped. Anything else is a `ControlProtocol` fault,
    /// also reported after the child is reaped.
    pub fn finish_spawn(pid: i32, control: AnonPipe, ours: StdioPipes) -> (r: Result<Child, Error>)
        requires
            pid > 0,
        ensures
            r matches Ok(c) ==> {
                &&& c.process().pid() == pid
                &&& c.process().cached() is None
                &&& c.has_stdin() <==> ours.stdin is Some
                &&& c.has_stdout() <==> ours.stdout is Some
                &&& c.has_stderr() <==> ours.stderr is Some
            },
            r matches Err(e) ==> e is Os || e is ControlProtocol,
    {
        let mut p = Process::new(pid);
        let mut buf: Vec<u8> = vec![0u8; RECORD_LEN];
        let mut retries: u64 = u64::MAX;
        loop
            invariant
                buf@.len() == RECORD_LEN,
                p.pid() == pid,
                p.cached() is None,
            decreases retries,
        {
            match control.read(buf.as_mut_slice()) {
                Ok(n) => {
                    let msg = vstd::slice::slice_subrange(buf.as_slice(), 0, n);
                    match report_outcome(decode_report(msg)) {
                        Ok(()) => {
                            return Ok(Child::new(p, ours));
                        },
                        Err(e) => {
                            let _ = p.wait();
                            return Err(e);
                        },
                    }
                },
                Err(Error::Os(code)) if code == EINTR && retries > 0 => {
                    retries = retries - 1;
                },
                Err(_) => {
                    let _ = p.wait();
                    return Err(Error::ControlProtocol);
                },
            }
        }
    }
}

/// What writing an image of `len` bytes comes to: done where the write took
/// all of it, a `ShortWrite` where it took less, the write's own error else.
pub fn image_write_outcome(res: Result<usize, Error>, len: usize) -> (r: Result<(), Error>)
    ensures
        r == match res {
            Ok(n) => if n == len {
                Ok::<(), Error>(())
            } else {
                Err(Error::ShortWrite)
            },
            Err(e) => Err(e),
        },
{
    match res {
        Ok(n) => if n == len {
            Ok(())
        } else {
            Err(Error::ShortWrite)
        },
        Err(e) => Err(e),
    }
}

/// Whether routing a stream makes no system call: it is inherited, or it is
/// a caller's descriptor off the standard slots.
pub open spec fn no_outside_call(c: Stdio) -> bool {
    c is Inherit || (c matches Stdio::Fd(fd) && !is_std_slot(fd.raw()))
}

/// Makes `slot` a copy of `fd`, retrying an interrupted call up to
/// `u64::MAX` times.
fn install(fd: i32, slot: i32) -> (r: Result<(), Error>)
    ensures
        r matches Err(e) ==> e is Os,
{
    let mut retries: u64 = u64::MAX;
    loop
        decreases retries,
    {
        match sys::dup2(fd, slot) {
            Ok(_) => {
                return Ok(());
            },
            Err(code) => {
                if code == EINTR && retries > 0 {
                    retries = retries - 1;
                } else {
                    return Err(Error::Os(code));
                }
            },
        }
    }
}

/// The configuration that applies to a stream: its own, or the default.
pub open spec fn effective(cfg: Option<Stdio>, default: Stdio) -> Stdio {
    match cfg {
        Some(c) => c,
        None => default,
    }
}

/// A caller's descriptor reaches the child off the standard slots: a copy
/// numbered above them where it sat on one, itself otherwise.
pub open spec fn routed_off_std_slots(cfg: Stdio, c: ChildStdio) -> bool {
    cfg matches Stdio::Fd(fd) ==> if is_std_slot(fd.raw()) {
        (c matches ChildStdio::Owned(d) && d.raw() >= FIRST_FREE_FD)
    } else {
        c == ChildStdio::Explicit(fd.raw())
    }
}

} // verus!
