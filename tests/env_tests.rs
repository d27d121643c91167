use memfd_exec::command_env::{construct_envp, CommandEnv};

fn var(k: &str, v: &str) -> (Vec<u8>, Vec<u8>) {
    (k.as_bytes().to_vec(), v.as_bytes().to_vec())
}

#[test]
fn unchanged_environment_is_not_captured() {
    let env = CommandEnv::new();
    assert!(env.is_unchanged());
    assert!(env.capture_if_changed(&vec![var("A", "1")]).is_none());
    assert!(!env.have_changed_path());
}

#[test]
fn set_overrides_and_adds() {
    let mut env = CommandEnv::new();
    env.set(b"B", b"new");
    env.set(b"C", b"3");
    let base = vec![var("A", "1"), var("B", "2")];
    let got = env.capture(&base);
    assert_eq!(got, vec![var("A", "1"), var("B", "new"), var("C", "3")]);
    assert!(!env.have_changed_path());
}

#[test]
fn remove_deletes_from_base() {
    let mut env = CommandEnv::new();
    env.remove(b"A");
    let got = env.capture_if_changed(&vec![var("A", "1"), var("B", "2")]).unwrap();
    assert_eq!(got, vec![var("B", "2")]);
}

#[test]
fn clear_drops_base_and_changes() {
    let mut env = CommandEnv::new();
    env.set(b"X", b"1");
    env.clear();
    assert!(!env.is_unchanged());
    assert!(env.have_changed_path());
    env.set(b"Y", b"2");
    env.remove(b"Y");
    env.set(b"Z", b"3");
    let got = env.capture(&vec![var("A", "1")]);
    assert_eq!(got, vec![var("Z", "3")]);
}

#[test]
fn path_change_is_noted() {
    let mut env = CommandEnv::new();
    env.set(b"PATHX", b"1");
    assert!(!env.have_changed_path());
    env.remove(b"PATH");
    assert!(env.have_changed_path());
}

#[test]
fn envp_entries_and_nul_detection() {
    let mut saw_nul = false;
    let vars = vec![var("A", "1"), (b"B".to_vec(), b"x\0y".to_vec()), var("C", "")];
    let envp = construct_envp(&vars, &mut saw_nul);
    assert_eq!(envp, vec![b"A=1".to_vec(), b"C=".to_vec()]);
    assert!(saw_nul);
    let mut clean = false;
    construct_envp(&vec![var("A", "1")], &mut clean);
    assert!(!clean);
}
