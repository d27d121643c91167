use memfd_exec::anon_pipe::anon_pipe;
use memfd_exec::control::encode_failure;
use memfd_exec::error::Error;
use memfd_exec::file_desc::FileDesc;
use memfd_exec::stdio::{ChildPipes, ChildStdio, StdioPipes};
use memfd_exec::{MemFdExecutable, Stdio};

const IMAGE: &[u8] = b"\x7fELF not really";

fn no_pipes() -> StdioPipes {
    StdioPipes { stdin: None, stdout: None, stderr: None }
}

#[test]
fn builder_collects_argv() {
    let mut exe = MemFdExecutable::new(b"cat", IMAGE);
    exe.arg(b"-n").args(&[b"a".to_vec(), b"b".to_vec()]);
    assert_eq!(exe.get_argv(), &vec![b"cat".to_vec(), b"-n".to_vec(), b"a".to_vec(), b"b".to_vec()]);
    assert_eq!(exe.get_program_cstr(), &b"cat".to_vec());
    assert!(!exe.program_is_path());
    exe.set_program(b"/bin/cat");
    assert!(exe.program_is_path());
    assert_eq!(exe.get_argv()[0], b"/bin/cat".to_vec());
    assert!(!exe.saw_nul());
}

#[test]
fn nul_in_argument_is_recorded() {
    let mut exe = MemFdExecutable::new(b"prog", IMAGE);
    exe.arg(b"a\0b");
    assert!(exe.saw_nul());
    assert_eq!(exe.get_argv()[1], b"<string-with-nul>".to_vec());
    match exe.prepare_spawn(&Vec::new()) {
        Err(e) => assert_eq!(e, Error::NulByte),
        Ok(_) => panic!("a NUL byte is refused"),
    }
}

#[test]
fn cwd_and_env_settings() {
    let mut exe = MemFdExecutable::new(b"prog", IMAGE);
    assert_eq!(exe.get_cwd(), &None);
    exe.cwd(b"/tmp").env(b"PATH", b"/bin").env_remove(b"HOME");
    assert_eq!(exe.get_cwd(), &Some(b"/tmp".to_vec()));
    assert!(exe.env_saw_path());
    let base = vec![(b"HOME".to_vec(), b"/root".to_vec()), (b"LANG".to_vec(), b"C".to_vec())];
    let envp = exe.capture_env(&base).unwrap();
    assert_eq!(envp, vec![b"LANG=C".to_vec(), b"PATH=/bin".to_vec()]);
    exe.env_clear().envs(&[(b"K".to_vec(), b"v".to_vec())]);
    assert_eq!(exe.capture_env(&base).unwrap(), vec![b"K=v".to_vec()]);
}

#[test]
fn nul_in_environment_is_refused() {
    let mut exe = MemFdExecutable::new(b"prog", IMAGE);
    exe.env(b"K", b"a\0b");
    assert!(!exe.saw_nul());
    assert!(matches!(exe.prepare_spawn(&Vec::new()), Err(Error::NulByte)));
    assert!(exe.saw_nul());
}

#[test]
fn prepare_spawn_routes_streams() {
    let mut exe = MemFdExecutable::new(b"prog", IMAGE);
    exe.stdin(Stdio::piped()).stdout(Stdio::null());
    let plan = exe.prepare_spawn(&Vec::new()).unwrap();
    assert!(plan.envp.is_none());
    assert!(plan.ours.stdin.is_some());
    assert!(plan.ours.stdout.is_none());
    assert!(plan.ours.stderr.is_none());
    assert!(matches!(plan.theirs.stdin, ChildStdio::Owned(_)));
    assert!(matches!(plan.theirs.stdout, ChildStdio::Owned(_)));
    assert!(matches!(plan.theirs.stderr, ChildStdio::Inherit));
    plan.control_write.write(b"z").unwrap();
    let mut buf = [0u8; 1];
    assert_eq!(plan.control_read.read(&mut buf).unwrap(), 1);
}

#[test]
fn setup_io_uses_null_input_when_none_needed() {
    let exe = MemFdExecutable::new(b"prog", IMAGE);
    let (ours, theirs) = exe.setup_io(Stdio::piped(), false).unwrap();
    assert!(ours.stdin.is_none());
    assert!(ours.stdout.is_some());
    assert!(ours.stderr.is_some());
    assert!(matches!(theirs.stdin, ChildStdio::Owned(_)));
}

#[test]
fn image_is_written_whole() {
    let exe = MemFdExecutable::new(b"prog", IMAGE);
    let (rd, wr) = anon_pipe().unwrap();
    let w: FileDesc = wr.into_file_desc();
    exe.write_image(&w).unwrap();
    drop(w);
    let mut v = Vec::new();
    rd.read_to_end(&mut v).unwrap();
    assert_eq!(v, IMAGE.to_vec());
}

#[test]
fn closed_control_pipe_means_exec_succeeded() {
    let (rd, wr) = anon_pipe().unwrap();
    drop(wr);
    let child = MemFdExecutable::finish_spawn(1, rd, no_pipes()).unwrap();
    assert_eq!(child.id(), 1);
    assert!(child.stdin.is_none());
}

#[test]
fn failure_record_becomes_the_error() {
    let (rd, wr) = anon_pipe().unwrap();
    wr.write(&encode_failure(8)).unwrap();
    drop(wr);
    match MemFdExecutable::finish_spawn(1, rd, no_pipes()) {
        Err(e) => {
            assert_eq!(e, Error::Os(8));
            assert_eq!(e.raw_os_error(), Some(8));
        }
        Ok(_) => panic!("the record reports a failure"),
    }
}

#[test]
fn short_control_message_is_a_fault() {
    let (rd, wr) = anon_pipe().unwrap();
    wr.write(b"abc").unwrap();
    drop(wr);
    assert!(matches!(MemFdExecutable::finish_spawn(1, rd, no_pipes()), Err(Error::ControlProtocol)));
}

#[test]
fn exec_setup_reports_a_missing_directory() {
    let mut exe = MemFdExecutable::new(b"prog", IMAGE);
    exe.cwd(b"/nonexistent/directory/for/this/test");
    let theirs = ChildPipes { stdin: ChildStdio::Inherit, stdout: ChildStdio::Inherit, stderr: ChildStdio::Inherit };
    assert_eq!(exe.exec_setup(&theirs), Err(Error::Os(2)));
}

#[test]
fn exec_setup_with_nothing_to_install() {
    let exe = MemFdExecutable::new(b"prog", IMAGE);
    let theirs = ChildPipes { stdin: ChildStdio::Inherit, stdout: ChildStdio::Inherit, stderr: ChildStdio::Inherit };
    assert_eq!(exe.exec_setup(&theirs), Ok(()));
}

#[test]
fn prepare_exec_routes_and_refuses_nul() {
    let mut exe = MemFdExecutable::new(b"prog", IMAGE);
    exe.env(b"A", b"1");
    let (theirs, envp) = exe.prepare_exec(&vec![(b"B".to_vec(), b"2".to_vec())], Stdio::inherit()).unwrap();
    assert!(matches!(theirs.stdin, ChildStdio::Inherit));
    assert_eq!(envp, Some(vec![b"B=2".to_vec(), b"A=1".to_vec()]));
    exe.arg(b"x\0");
    assert!(matches!(exe.prepare_exec(&Vec::new(), Stdio::inherit()), Err(Error::NulByte)));
}
