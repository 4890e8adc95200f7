use xshell::error::{IoError, IoErrorKind};
use xshell::shell::{Shell, TempDirSearch, TempDirStep, TEMP_DIR_RETRIES};

fn shell() -> Shell {
    Shell::new(Ok("/home/user".to_string())).unwrap()
}

#[test]
fn new_takes_the_process_directory() {
    let sh = shell();
    assert_eq!(sh.current_dir(), "/home/user");
    assert!(sh.env_bindings().is_empty());
}

#[test]
fn new_reports_an_unreadable_directory() {
    let err = Shell::new(Err(IoError { kind: IoErrorKind::NotFound, message: "gone".to_string() }))
        .unwrap_err();
    assert_eq!(err.to_string(), "failed to get current directory: gone");
}

#[test]
fn push_dir_then_restore() {
    let mut sh = shell();
    let initial_dir = sh.current_dir();
    let p = sh.push_dir("src");
    assert_eq!(sh.current_dir(), "/home/user/src");
    p.restore(&mut sh);
    assert_eq!(sh.current_dir(), initial_dir);
}

#[test]
fn nested_push_dir_restores_in_reverse() {
    let mut sh = shell();
    let a = sh.push_dir("./target");
    assert_eq!(sh.current_dir(), "/home/user/./target");
    let b = sh.push_dir("/tmp");
    assert_eq!(sh.current_dir(), "/tmp");
    let c = sh.push_dir("x/");
    assert_eq!(sh.current_dir(), "/tmp/x/");
    let d = sh.push_dir("y");
    assert_eq!(sh.current_dir(), "/tmp/x/y");
    d.restore(&mut sh);
    c.restore(&mut sh);
    assert_eq!(sh.current_dir(), "/tmp");
    b.restore(&mut sh);
    a.restore(&mut sh);
    assert_eq!(sh.current_dir(), "/home/user");
}

#[test]
fn path_is_read_against_the_working_directory() {
    let sh = shell();
    assert_eq!(sh.path("Cargo.toml"), "/home/user/Cargo.toml");
    assert_eq!(sh.path("/etc/hosts"), "/etc/hosts");
    assert_eq!(sh.path(""), "/home/user/");
    let rel = Shell::new(Ok(String::new())).unwrap();
    assert_eq!(rel.path("a"), "a");
}

#[test]
fn var_is_an_error_until_pushed() {
    let mut sh = shell();
    let err = sh.var("MY_VAR", None).unwrap_err();
    assert_eq!(
        err.to_string(),
        "failed to get environment variable `MY_VAR`: environment variable not found"
    );
    let e = sh.push_env("MY_VAR", "92");
    assert_eq!(sh.var("MY_VAR", None).unwrap(), "92");
    assert_eq!(sh.var("MY_VAR", Some(Ok("7".to_string()))).unwrap(), "92");
    e.restore(&mut sh);
    assert!(sh.var("MY_VAR", None).is_err());
}

#[test]
fn var_falls_back_to_the_process_environment() {
    let sh = shell();
    assert_eq!(sh.var("HOME", Some(Ok("/root".to_string()))).unwrap(), "/root");
    let err = sh.var("RAW", Some(Err("\"\\xFF\"".to_string()))).unwrap_err();
    assert_eq!(
        err.to_string(),
        "failed to get environment variable `RAW`: environment variable was not valid unicode: \"\\xFF\""
    );
}

#[test]
fn var_os_prefers_the_shell() {
    let mut sh = shell();
    assert_eq!(sh.var_os("K", None), None);
    assert_eq!(sh.var_os("K", Some("p".to_string())), Some("p".to_string()));
    let _g = sh.push_env("K", "s");
    assert_eq!(sh.var_os("K", Some("p".to_string())), Some("s".to_string()));
}

#[test]
fn later_pushes_shadow_earlier_ones() {
    let mut sh = shell();
    let a = sh.push_env("K", "1");
    let b = sh.push_env("J", "x");
    let c = sh.push_env("K", "2");
    assert_eq!(sh.var("K", None).unwrap(), "2");
    assert_eq!(sh.var("J", None).unwrap(), "x");
    c.restore(&mut sh);
    assert_eq!(sh.var("K", None).unwrap(), "1");
    b.restore(&mut sh);
    a.restore(&mut sh);
    assert!(sh.var("K", None).is_err());
    assert!(sh.env_bindings().is_empty());
}

#[test]
fn copy_into_a_directory_keeps_the_file_name() {
    let sh = shell();
    let (s, d) = sh.copy_file_paths("notes/a.txt", "backup", true);
    assert_eq!(s, "/home/user/notes/a.txt");
    assert_eq!(d, "/home/user/backup/a.txt");
    let (_, d) = sh.copy_file_paths("notes/a.txt", "backup", false);
    assert_eq!(d, "/home/user/backup");
    let (_, d) = sh.copy_file_paths("/", "/dst", true);
    assert_eq!(d, "/dst");
    let (_, d) = sh.copy_file_paths("notes/..", "/dst", true);
    assert_eq!(d, "/dst");
}

#[test]
fn write_creates_the_parent_first() {
    let sh = shell();
    let (p, dir) = sh.write_file_paths("out/data/x.bin");
    assert_eq!(p, "/home/user/out/data/x.bin");
    assert_eq!(dir, Some("/home/user/out/data".to_string()));
    let root = Shell::new(Ok("/".to_string())).unwrap();
    let (p, dir) = root.write_file_paths("/");
    assert_eq!(p, "/");
    assert_eq!(dir, None);
    let empty = Shell::new(Ok(String::new())).unwrap();
    assert_eq!(empty.write_file_paths(""), (String::new(), None));
    assert_eq!(empty.write_file_paths("f"), ("f".to_string(), Some(String::new())));
}

#[test]
fn temp_dir_candidates_are_numbered() {
    assert_eq!(TempDirSearch::candidate("/tmp", 0), "/tmp/xshell-tmp-dir-0");
    assert_eq!(TempDirSearch::candidate("/tmp/", 1234), "/tmp/xshell-tmp-dir-1234");
}

#[test]
fn temp_dir_candidates_for_different_counts_differ() {
    let names: Vec<String> = (0..200).map(|n| TempDirSearch::candidate("/tmp", n)).collect();
    for i in 0..names.len() {
        for j in 0..i {
            assert_ne!(names[i], names[j]);
        }
    }
    assert_ne!(TempDirSearch::candidate("/t", 1), TempDirSearch::candidate("/t", 10));
}

#[test]
fn temp_dir_search_retries_then_gives_up() {
    let fail = || IoError { kind: IoErrorKind::Other, message: "exists".to_string() };
    let mut search = TempDirSearch::new();
    for _ in 0..TEMP_DIR_RETRIES {
        assert!(matches!(search.step("/tmp/d".to_string(), Err(fail())), TempDirStep::Retry));
    }
    match search.step("/tmp/last".to_string(), Err(fail())) {
        TempDirStep::Failed(e) => {
            assert_eq!(e.to_string(), "failed to create directory `/tmp/last`: exists")
        }
        other => panic!("unexpected {:?}", other),
    }
}

#[test]
fn temp_dir_search_succeeds_with_the_path() {
    let mut search = TempDirSearch::new();
    let fail = IoError { kind: IoErrorKind::Other, message: "exists".to_string() };
    assert!(matches!(search.step("/tmp/a".to_string(), Err(fail)), TempDirStep::Retry));
    match search.step("/tmp/b".to_string(), Ok(())) {
        TempDirStep::Created(d) => assert_eq!(d.path(), "/tmp/b"),
        other => panic!("unexpected {:?}", other),
    }
}
