use xshell::error::{Error, IoError, IoErrorKind, VarError};
use xshell::path::{path_le, sort_paths};
use xshell::shell::Shell;
use xshell::shell::copy_destination;
use xshell::text::{contains_ascii_whitespace, is_ascii_whitespace};

fn io(m: &str) -> IoError {
    IoError { kind: IoErrorKind::Other, message: m.to_string() }
}

#[test]
fn join_rules() {
    let at = |cwd: &str| Shell::new(Ok(cwd.to_string())).unwrap();
    assert_eq!(at("/a").path("b"), "/a/b");
    assert_eq!(at("/a/").path("b"), "/a/b");
    assert_eq!(at("").path("b"), "b");
    assert_eq!(at("/a").path("/b"), "/b");
    assert_eq!(at("/a").path(""), "/a/");
}

#[test]
fn sorted_dir_listing() {
    let entries = vec![
        "/d/b".to_string(),
        "/d/a.txt".to_string(),
        "/d/a".to_string(),
        "/d/B".to_string(),
        "/d/\u{e9}".to_string(),
        "/d/a".to_string(),
    ];
    let sorted = sort_paths(entries);
    assert_eq!(sorted, vec!["/d/B", "/d/a", "/d/a", "/d/a.txt", "/d/b", "/d/\u{e9}"]);
    assert!(sort_paths(Vec::new()).is_empty());
}

#[test]
fn order_of_paths() {
    assert!(path_le("a", "ab"));
    assert!(!path_le("ab", "a"));
    assert!(path_le("", ""));
    assert!(path_le("B", "a"));
    assert!(path_le("z", "\u{e9}"));
}

#[test]
fn copy_destination_rules() {
    assert_eq!(copy_destination("/d".to_string(), true, Some("f".to_string())), "/d/f");
    assert_eq!(copy_destination("/d".to_string(), true, None), "/d");
    assert_eq!(copy_destination("/d".to_string(), false, Some("f".to_string())), "/d");
}

#[test]
fn whitespace_classes() {
    for c in [' ', '\t', '\n', '\x0c', '\r'] {
        assert!(is_ascii_whitespace(c));
    }
    for c in ['\x0b', 'a', '\u{a0}'] {
        assert!(!is_ascii_whitespace(c));
    }
    assert!(contains_ascii_whitespace("a b"));
    assert!(!contains_ascii_whitespace("ab\u{2003}"));
}

#[test]
fn file_error_messages() {
    let nf = IoError { kind: IoErrorKind::NotFound, message: "no such file or directory".to_string() };
    assert_eq!(
        Error::new_read_file(nf, "Cargo.taml".to_string()).to_string(),
        "failed to read the file `Cargo.taml`: no such file or directory"
    );
    assert_eq!(
        Error::new_read_dir(io("e"), "/d".to_string()).to_string(),
        "failed to read directory `/d`: e"
    );
    assert_eq!(
        Error::new_write_file(io("e"), "/f".to_string()).to_string(),
        "failed to write file `/f`: e"
    );
    assert_eq!(
        Error::new_copy_file(io("e"), "/a".to_string(), "/b".to_string()).to_string(),
        "failed to copy `/a` to `/b`: e"
    );
    assert_eq!(
        Error::new_hard_link(io("e"), "/a".to_string(), "/b".to_string()).to_string(),
        "failed to hard link `/a` to `/b`: e"
    );
    assert_eq!(
        Error::new_create_dir(io("e"), "/d".to_string()).to_string(),
        "failed to create directory `/d`: e"
    );
    assert_eq!(
        Error::new_remove_path(io("e"), "/p".to_string()).to_string(),
        "failed to remove path `/p`: e"
    );
    assert_eq!(Error::new_current_dir(io("e")).to_string(), "failed to get current directory: e");
    assert_eq!(
        Error::new_var(VarError::NotPresent, "V".to_string()).to_string(),
        "failed to get environment variable `V`: environment variable not found"
    );
}
