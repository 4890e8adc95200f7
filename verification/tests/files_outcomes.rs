use xshell::error::{describe_os_error, Error, IoError, IoErrorKind};
use xshell::files::{removal_for, Removal, RemoveTreeAttempts, RemoveTreeStep, REMOVE_TREE_RETRIES};
use xshell::shell::Shell;

fn io(m: &str) -> IoError {
    IoError { kind: IoErrorKind::Other, message: m.to_string() }
}

fn shell() -> Shell {
    Shell::new(Ok("/w".to_string())).unwrap()
}

#[test]
fn os_error_texts_lose_their_number() {
    assert_eq!(describe_os_error("No such file or directory (os error 2)"), "no such file or directory");
    assert_eq!(describe_os_error("Permission denied (os error 13)"), "permission denied");
    assert_eq!(describe_os_error("custom failure"), "custom failure");
    assert_eq!(describe_os_error("Odd (os error )"), "odd (os error )");
    assert_eq!(describe_os_error("x (os error 2) more"), "x (os error 2) more");
    assert_eq!(describe_os_error(""), "");
    assert_eq!(describe_os_error("(os error 5)"), "(os error 5)");
    assert_eq!(describe_os_error(" (os error 5)"), "");
}

#[test]
fn missing_file_reads_as_documented() {
    let nf = IoError::from_os_text(IoErrorKind::NotFound, "No such file or directory (os error 2)");
    let err = shell().finish_read_file("Cargo.taml", Err(nf)).unwrap_err();
    assert_eq!(err.to_string(), "failed to read the file `Cargo.taml`: no such file or directory");
}

#[test]
fn successful_outcomes_pass_through() {
    let sh = shell();
    assert_eq!(sh.finish_read_file("f", Ok("text".to_string())).unwrap(), "text");
    assert_eq!(sh.finish_read_binary_file("f", Ok(vec![1, 2])).unwrap(), vec![1, 2]);
    assert_eq!(
        sh.finish_read_dir("d", Ok(vec!["/w/d/b".to_string(), "/w/d/a".to_string()])).unwrap(),
        vec!["/w/d/a", "/w/d/b"]
    );
    assert!(sh.finish_write_parent("out/f", Ok(())).is_ok());
    assert!(sh.finish_write_file("f", Ok(())).is_ok());
    assert_eq!(sh.finish_create_dir("d", Ok(())).unwrap(), "/w/d");
    assert!(sh.finish_copy_file("a", "b", false, Ok(())).is_ok());
    assert!(sh.finish_hard_link("a", "b", Ok(())).is_ok());
    assert!(sh.finish_remove_path("p", Ok(())).is_ok());
}

#[test]
fn failed_outcomes_become_errors() {
    let sh = shell();
    let m = |r: Result<(), Error>| r.unwrap_err().to_string();
    assert_eq!(
        sh.finish_read_binary_file("f", Err(io("e"))).unwrap_err().to_string(),
        "failed to read the file `f`: e"
    );
    assert_eq!(
        sh.finish_read_dir("d", Err(io("e"))).unwrap_err().to_string(),
        "failed to read directory `/w/d`: e"
    );
    assert_eq!(m(sh.finish_write_parent("out/f", Err(io("e")))), "failed to create directory `/w/out`: e");
    assert!(Shell::new(Ok(String::new())).unwrap().finish_write_parent("", Err(io("e"))).is_ok());
    assert_eq!(m(sh.finish_write_file("f", Err(io("e")))), "failed to write file `/w/f`: e");
    assert_eq!(
        sh.finish_create_dir("d", Err(io("e"))).unwrap_err().to_string(),
        "failed to create directory `/w/d`: e"
    );
    assert_eq!(m(sh.finish_copy_file("s/a", "b", true, Err(io("e")))), "failed to copy `/w/s/a` to `/w/b/a`: e");
    assert_eq!(m(sh.finish_copy_file("s/a", "b", false, Err(io("e")))), "failed to copy `/w/s/a` to `/w/b`: e");
    assert_eq!(m(sh.finish_hard_link("a", "/b", Err(io("e")))), "failed to hard link `/w/a` to `/b`: e");
    assert_eq!(m(sh.finish_remove_path("p", Err(io("e")))), "failed to remove path `/w/p`: e");
}

#[test]
fn files_are_removed_as_files_and_the_rest_as_trees() {
    assert_eq!(removal_for(true), Removal::File);
    assert_eq!(removal_for(false), Removal::Tree);
}

#[test]
fn tree_removal_retries_then_reports_the_last_outcome() {
    let mut a = RemoveTreeAttempts::new(REMOVE_TREE_RETRIES);
    for _ in 0..REMOVE_TREE_RETRIES {
        assert!(matches!(a.step(Err(io("busy"))), RemoveTreeStep::PauseAndRetry));
    }
    match a.step(Err(io("still busy"))) {
        RemoveTreeStep::Finished(Err(e)) => assert_eq!(e.message, "still busy"),
        other => panic!("unexpected {:?}", other),
    }
    let mut b = RemoveTreeAttempts::new(0);
    assert!(matches!(b.step(Err(io("x"))), RemoveTreeStep::Finished(Err(_))));
    let mut c = RemoveTreeAttempts::new(3);
    assert!(matches!(c.step(Err(io("x"))), RemoveTreeStep::PauseAndRetry));
    assert!(matches!(c.step(Ok(())), RemoveTreeStep::Finished(Ok(()))));
}
