use xshell::cmd::{EnvChange, Stdio};
use xshell::error::{ExitStatus, IoError, IoErrorKind, Output};
use xshell::shell::Shell;

fn shell() -> Shell {
    Shell::new(Ok("/work".to_string())).unwrap()
}

#[test]
fn interpolated_arguments_are_quoted_when_they_hold_spaces() {
    let sh = shell();
    let people = ["Spica", "Boarst", "Georgina"];
    let c = sh.cmd("echo").arg("Guten Tag").args(&people);
    assert_eq!(c.to_string(), r#"echo "Guten Tag" Spica Boarst Georgina"#);
}

#[test]
fn quoted_literal_argument_shows_in_double_quotes() {
    let sh = shell();
    assert_eq!(sh.cmd("echo").arg("hello world").to_string(), r#"echo "hello world""#);
}

#[test]
fn splat_of_slice_and_option() {
    let sh = shell();
    let check: &[&str] = if true { &["--", "--check"] } else { &[] };
    assert_eq!(sh.cmd("cargo").arg("fmt").args(check).to_string(), "cargo fmt -- --check");
    let dry_run: Option<&str> = if true { Some("--dry-run") } else { None };
    let extra: Vec<&str> = dry_run.into_iter().collect();
    assert_eq!(sh.cmd("git").arg("push").args(&extra).to_string(), "git push --dry-run");
    let none: Vec<&str> = Vec::new();
    assert_eq!(sh.cmd("git").arg("push").args(&none).to_string(), "git push");
}

#[test]
fn whitespace_arguments_are_escaped() {
    let sh = shell();
    let c = sh.cmd("printf").arg("a\tb").arg("say \"hi\"\n").arg("x\u{1b}y z").arg("\u{e9} \\");
    assert_eq!(
        c.to_string(),
        r#"printf "a\tb" "say \"hi\"\n" "x\u{1b}y z" "\u{e9} \\""#
    );
}

#[test]
fn form_feed_counts_as_whitespace_but_vertical_tab_does_not() {
    let sh = shell();
    assert_eq!(sh.cmd("p").arg("a\x0cb").to_string(), "p \"a\\u{c}b\"");
    assert_eq!(sh.cmd("p").arg("a\x0bb").to_string(), "p a\x0bb");
}

#[test]
fn secret_command_shows_as_secret() {
    let sh = shell();
    let c = sh.cmd("login").arg("--password").arg("hunter2").secret();
    assert_eq!(c.to_string(), "<secret>");
    let mut c = c;
    c.set_secret(false);
    assert_eq!(c.to_string(), "login --password hunter2");
}

#[test]
fn extend_arg_glues_onto_last_argument_or_program() {
    let sh = shell();
    let c = sh.cmd("git").__extend_arg("-x");
    assert_eq!(c.to_string(), "git-x");
    let c = c.arg("tag").arg("v").__extend_arg("1.0").__extend_arg(" rc");
    assert_eq!(c.to_string(), "git-x tag \"v1.0 rc\"");
}

#[test]
fn echo_line_unless_quiet() {
    let sh = shell();
    let c = sh.cmd("echo").arg("hello!");
    assert_eq!(c.echo_line(), Some("$ echo hello!".to_string()));
    let c = c.quiet();
    assert_eq!(c.echo_line(), None);
    let mut c = c;
    c.set_quiet(false);
    assert_eq!(c.echo_line(), Some("$ echo hello!".to_string()));
}

#[test]
fn command_plan_puts_shell_env_before_command_changes() {
    let mut sh = shell();
    let _a = sh.push_env("A", "1");
    let _b = sh.push_env("B", "2");
    let c = sh
        .cmd("env")
        .arg("-0")
        .env("C", "3")
        .env_remove("A")
        .envs(&[("D", "4"), ("E", "5")])
        .env_clear();
    let plan = c.to_command();
    assert_eq!(plan.prog, "env");
    assert_eq!(plan.cwd, "/work");
    assert_eq!(plan.args, vec!["-0".to_string()]);
    let shown: Vec<String> = plan
        .env
        .iter()
        .map(|e| match e {
            EnvChange::Assign(k, v) => format!("{}={}", k, v),
            EnvChange::Remove(k) => format!("-{}", k),
            EnvChange::Clear => "clear".to_string(),
        })
        .collect();
    assert_eq!(shown, vec!["A=1", "B=2", "C=3", "-A", "D=4", "E=5", "clear"]);
    assert_eq!(plan.stdin, Stdio::Unset);
    assert_eq!(plan.stdout, Stdio::Unset);
    assert_eq!(plan.stderr, Stdio::Unset);
}

#[test]
fn ignored_streams_are_discarded() {
    let sh = shell();
    let c = sh.cmd("x").ignore_stdout().ignore_stderr();
    let plan = c.to_command();
    assert_eq!(plan.stdout, Stdio::Null);
    assert_eq!(plan.stderr, Stdio::Null);
    let plan = c.output_command(true, true);
    assert_eq!(plan.stdout, Stdio::Null);
    assert_eq!(plan.stderr, Stdio::Null);
    assert_eq!(plan.stdin, Stdio::Null);
    let mut c = c;
    c.set_ignore_stdout(false);
    c.set_ignore_stderr(false);
    let plan = c.output_command(true, false);
    assert_eq!(plan.stdout, Stdio::Piped);
    assert_eq!(plan.stderr, Stdio::Inherit);
}

#[test]
fn stdin_contents_make_input_piped() {
    let sh = shell();
    let c = sh.cmd("cat").stdin(b"hi\n");
    assert_eq!(c.stdin_data(), Some(b"hi\n".to_vec()));
    let plan = c.output_command(false, true);
    assert_eq!(plan.stdin, Stdio::Piped);
    assert_eq!(plan.stdout, Stdio::Inherit);
    assert_eq!(plan.stderr, Stdio::Piped);
    assert_eq!(sh.cmd("cat").stdin_data(), None);
}

#[test]
fn run_feeds_stdin_contents() {
    let sh = shell();
    let c = sh.cmd("cat").stdin(b"hello");
    let plan = c.run_command();
    assert_eq!(plan.stdin, Stdio::Piped);
    assert_eq!(plan.stdout, Stdio::Unset);
    assert_eq!(c.stdin_data(), Some(b"hello".to_vec()));
    assert_eq!(sh.cmd("cat").run_command().stdin, Stdio::Unset);
}

#[test]
fn default_command_leaves_stdin_alone() {
    let sh = shell();
    let c = sh.cmd("cat").stdin(b"hello");
    assert_eq!(c.to_command().stdin, Stdio::Unset);
}

#[test]
fn finish_run_orders_its_errors() {
    let sh = shell();
    let c = sh.cmd("tool");
    let io = |m: &str| IoError { kind: IoErrorKind::Other, message: m.to_string() };
    let e = c.finish_run(Err(io("cannot start")), None).unwrap_err();
    assert_eq!(e.to_string(), "io error when running command `tool`: cannot start");
    let e = c.finish_run(Ok(ExitStatus { code: Some(2), signal: None }), Some(Err(io("pipe")))).unwrap_err();
    assert_eq!(e.to_string(), "failed to write to stdin of command `tool`: pipe");
    let e = c.finish_run(Ok(ExitStatus { code: Some(2), signal: None }), Some(Ok(()))).unwrap_err();
    assert_eq!(e.to_string(), "command exited with non-zero code `tool`: 2");
    assert!(c.finish_run(Ok(ExitStatus { code: Some(0), signal: None }), None).is_ok());
    let c = c.ignore_status();
    assert!(c.finish_run(Ok(ExitStatus { code: Some(2), signal: None }), Some(Ok(()))).is_ok());
}

#[test]
fn non_zero_exit_is_an_error_unless_ignored() {
    let sh = shell();
    let c = sh.cmd("false");
    let err = c.check_status(ExitStatus { code: Some(1), signal: None }).unwrap_err();
    assert!(err.to_string().starts_with("command exited with non-zero code `false`: 1"));
    assert!(c.check_status(ExitStatus { code: Some(0), signal: None }).is_ok());
    let c = c.ignore_status();
    assert!(c.check_status(ExitStatus { code: Some(1), signal: None }).is_ok());
    assert!(c.check_status(ExitStatus { code: None, signal: None }).is_ok());
    let mut c = c;
    c.set_ignore_status(false);
    assert!(c.check_status(ExitStatus { code: None, signal: None }).is_err());
}

#[test]
fn negative_exit_code_and_signal_messages() {
    let sh = shell();
    let c = sh.cmd("crash").arg("now");
    let err = c.check_status(ExitStatus { code: Some(-2147483648), signal: None }).unwrap_err();
    assert_eq!(err.to_string(), "command exited with non-zero code `crash now`: -2147483648");
    let err = c.check_status(ExitStatus { code: None, signal: None }).unwrap_err();
    assert_eq!(err.to_string(), "command was terminated by a signal `crash now`");
    let err = c.check_status(ExitStatus { code: None, signal: Some(9) }).unwrap_err();
    assert_eq!(err.to_string(), "command was terminated by a signal `crash now`: 9");
}

fn output(code: i32, stdout: &[u8], stderr: &[u8]) -> Output {
    Output { status: ExitStatus { code: Some(code), signal: None }, stdout: stdout.to_vec(), stderr: stderr.to_vec() }
}

#[test]
fn read_strips_one_line_ending() {
    let sh = shell();
    let c = sh.cmd("date");
    assert_eq!(c.finish_read(output(0, b"2024-01-01\r\n", b""), false).unwrap(), "2024-01-01");
    assert_eq!(c.finish_read(output(0, b"a\n\n", b""), false).unwrap(), "a\n");
    assert_eq!(c.finish_read(output(0, b"a\r", b""), false).unwrap(), "a");
    assert_eq!(c.finish_read(output(0, b"", b"warn\n"), true).unwrap(), "warn");
    assert_eq!(c.finish_read(output(0, "h\u{e9}\n".as_bytes(), b""), false).unwrap(), "h\u{e9}");
}

#[test]
fn read_rejects_bad_status_and_bad_utf8() {
    let sh = shell();
    let c = sh.cmd("cat");
    let err = c.finish_read(output(3, b"x", b""), false).unwrap_err();
    assert_eq!(err.to_string(), "command exited with non-zero code `cat`: 3");
    let err = c.finish_read(output(0, b"\xff", b""), false).unwrap_err();
    let msg = err.to_string();
    assert!(msg.starts_with("failed to decode output of command `cat`: "), "{}", msg);
    assert!(msg.len() > "failed to decode output of command `cat`: ".len());
}

#[test]
fn finish_output_orders_its_errors() {
    let sh = shell();
    let c = sh.cmd("tool");
    let io = |m: &str| IoError { kind: IoErrorKind::Other, message: m.to_string() };
    let e = c.finish_output(Err(io("broken")), Some(Err(io("pipe")))).unwrap_err();
    assert_eq!(e.to_string(), "io error when running command `tool`: broken");
    let e = c.finish_output(Ok(output(1, b"", b"")), Some(Err(io("pipe")))).unwrap_err();
    assert_eq!(e.to_string(), "failed to write to stdin of command `tool`: pipe");
    let e = c.finish_output(Ok(output(1, b"", b"")), Some(Ok(()))).unwrap_err();
    assert_eq!(e.to_string(), "command exited with non-zero code `tool`: 1");
    let o = c.finish_output(Ok(output(0, b"out", b"err")), None).unwrap();
    assert_eq!(o.stdout, b"out".to_vec());
    assert_eq!(o.stderr, b"err".to_vec());
}

#[test]
fn command_not_found_names_the_program() {
    let sh = shell();
    let c = sh.cmd("nosuchprog").arg("x");
    let e = c
        .finish_output(Err(IoError { kind: IoErrorKind::NotFound, message: "gone".to_string() }), None)
        .unwrap_err();
    assert_eq!(e.to_string(), "command not found: `nosuchprog`");
    let c = c.secret();
    let e = c
        .finish_output(Err(IoError { kind: IoErrorKind::NotFound, message: "gone".to_string() }), None)
        .unwrap_err();
    assert_eq!(e.to_string(), "command not found: `<secret>`");
}

#[test]
fn secret_commands_stay_secret_in_errors() {
    let sh = shell();
    let c = sh.cmd("login").arg("hunter2").secret();
    let e = c.check_status(ExitStatus { code: Some(1), signal: None }).unwrap_err();
    assert_eq!(e.to_string(), "command exited with non-zero code `<secret>`: 1");
    let io = IoError { kind: IoErrorKind::Other, message: "boom".to_string() };
    let e = c.finish_output(Err(io), None).unwrap_err();
    assert_eq!(e.to_string(), "io error when running command `<secret>`: boom");
    assert_eq!(c.echo_line(), Some("$ <secret>".to_string()));
}
