//! Commands: the builder, how a command is shown, what the process is to be
//! started with, and what its outcome comes to.
use vstd::prelude::*;
use crate::error::{
    Error, ErrorView, ExitStatus, IoError, IoErrorView, Output, OutputView, decode_utf8_text, utf8_text,
};
use crate::shell::{Shell, ShellView};
use crate::text::{
    contains_ascii_whitespace, escape_str, has_ascii_ws, push_char, push_escaped, push_str,
    strings_view, strip_line_end, trim_line_end,
};

verus! {

// ---------------------------------------------------------------------------
// Model
// ---------------------------------------------------------------------------

/// A change to the environment of a command, applied in order after the
/// shell's own bindings.
#[derive(Debug)]
pub enum EnvChange {
    Assign(String, String),
    Remove(String),
    Clear,
}

/// The view of an [`EnvChange`].
pub enum EnvChangeView {
    Assign(Seq<char>, Seq<char>),
    Remove(Seq<char>),
    Clear,
}

impl View for EnvChange {
    type V = EnvChangeView;

    open spec fn view(&self) -> EnvChangeView {
        match self {
            EnvChange::Assign(k, v) => EnvChangeView::Assign(k@, v@),
            EnvChange::Remove(k) => EnvChangeView::Remove(k@),
            EnvChange::Clear => EnvChangeView::Clear,
        }
    }
}

impl EnvChange {
    /// A copy of the change.
    pub fn duplicate(&self) -> (r: EnvChange)
        ensures
            r@ == self@,
    {
        match self {
            EnvChange::Assign(k, v) => EnvChange::Assign(k.clone(), v.clone()),
            EnvChange::Remove(k) => EnvChange::Remove(k.clone()),
            EnvChange::Clear => EnvChange::Clear,
        }
    }
}

/// The views of a sequence of environment changes.
pub open spec fn changes_view(v: Seq<EnvChange>) -> Seq<EnvChangeView> {
    v.map_values(|c: EnvChange| c@)
}

/// Everything a command is made of.
pub struct CmdDataView {
    pub prog: Seq<char>,
    pub args: Seq<Seq<char>>,
    pub env_changes: Seq<EnvChangeView>,
    pub ignore_status: bool,
    pub quiet: bool,
    pub secret: bool,
    pub stdin_contents: Option<Seq<u8>>,
    pub ignore_stdout: bool,
    pub ignore_stderr: bool,
}

/// The data of a command: program, arguments, environment changes and
/// the switches that the builder sets.
#[derive(Debug)]
pub struct CmdData {
    prog: String,
    args: Vec<String>,
    env_changes: Vec<EnvChange>,
    ignore_status: bool,
    quiet: bool,
    secret: bool,
    stdin_contents: Option<Vec<u8>>,
    ignore_stdout: bool,
    ignore_stderr: bool,
}

impl View for CmdData {
    type V = CmdDataView;

    closed spec fn view(&self) -> CmdDataView {
        CmdDataView {
            prog: self.prog@,
            args: strings_view(self.args@),
            env_changes: changes_view(self.env_changes@),
            ignore_status: self.ignore_status,
            quiet: self.quiet,
            secret: self.secret,
            stdin_contents: match self.stdin_contents {
                Some(v) => Some(v@),
                None => None,
            },
            ignore_stdout: self.ignore_stdout,
            ignore_stderr: self.ignore_stderr,
        }
    }
}

/// A fresh command for `prog`: no arguments, no environment changes, every
/// switch off.
pub open spec fn fresh_cmd(prog: Seq<char>) -> CmdDataView {
    CmdDataView {
        prog: prog,
        args: Seq::empty(),
        env_changes: Seq::empty(),
        ignore_status: false,
        quiet: false,
        secret: false,
        stdin_contents: None,
        ignore_stdout: false,
        ignore_stderr: false,
    }
}

// ---------------------------------------------------------------------------
// How a command is shown
// ---------------------------------------------------------------------------

/// One argument as shown: after a space, as it is, or quoted and escaped
/// when it holds ASCII whitespace.
pub open spec fn arg_text(a: Seq<char>) -> Seq<char> {
    if has_ascii_ws(a) {
        seq![' ', '"'] + escape_str(a) + seq!['"']
    } else {
        seq![' '] + a
    }
}

/// The arguments as shown, in order.
pub open spec fn args_text(args: Seq<Seq<char>>) -> Seq<char>
    decreases args.len(),
{
    if args.len() == 0 {
        seq![]
    } else {
        args_text(args.drop_last()) + arg_text(args.last())
    }
}

/// A command as shown: `<secret>` for a secret one, else the program and
/// its arguments.
pub open spec fn display(d: CmdDataView) -> Seq<char> {
    if d.secret {
        "<secret>"@
    } else {
        d.prog + args_text(d.args)
    }
}

/// The program as a "not found" message names it: `<secret>` for a secret
/// command.
pub open spec fn shown_prog(d: CmdDataView) -> Seq<char> {
    if d.secret {
        "<secret>"@
    } else {
        d.prog
    }
}

impl CmdData {
    fn new(prog: &str) -> (r: CmdData)
        ensures
            r@ == fresh_cmd(prog@),
    {
        let r = CmdData {
            prog: String::from_str(prog),
            args: Vec::new(),
            env_changes: Vec::new(),
            ignore_status: false,
            quiet: false,
            secret: false,
            stdin_contents: None,
            ignore_stdout: false,
            ignore_stderr: false,
        };
        assert(strings_view(r.args@) =~= Seq::empty());
        assert(changes_view(r.env_changes@) =~= Seq::empty());
        r
    }

    /// A copy of the data.
    pub fn duplicate(&self) -> (r: CmdData)
        ensures
            r@ == self@,
    {
        let stdin_contents = match &self.stdin_contents {
            Some(v) => Some(vstd::slice::slice_to_vec(v.as_slice())),
            None => None,
        };
        CmdData {
            prog: self.prog.clone(),
            args: clone_strings(&self.args),
            env_changes: clone_changes(&self.env_changes),
            ignore_status: self.ignore_status,
            quiet: self.quiet,
            secret: self.secret,
            stdin_contents,
            ignore_stdout: self.ignore_stdout,
            ignore_stderr: self.ignore_stderr,
        }
    }

    /// The command as shown in echoes and error messages.
    pub fn to_string(&self) -> (r: String)
        ensures
            r@ == display(self@),
    {
        let mut s = String::new();
        if self.secret {
            push_str(&mut s, "<secret>");
            assert(s@ =~= "<secret>"@);
            return s;
        }
        push_str(&mut s, self.prog.as_str());
        let n = self.args.len();
        let mut i: usize = 0;
        assert(s@ =~= self.prog@ + args_text(strings_view(self.args@).take(0)));
        while i < n
            invariant
                n == self.args@.len(),
                i <= n,
                !self.secret,
                s@ == self.prog@ + args_text(strings_view(self.args@).take(i as int)),
            decreases n - i,
        {
            let a = self.args[i].as_str();
            let ghost before = s@;
            if contains_ascii_whitespace(a) {
                push_char(&mut s, ' ');
                push_char(&mut s, '"');
                push_escaped(&mut s, a);
                push_char(&mut s, '"');
            } else {
                push_char(&mut s, ' ');
                push_str(&mut s, a);
            }
            assert(s@ =~= before + arg_text(a@));
            assert(strings_view(self.args@).take(i + 1).drop_last() =~= strings_view(
                self.args@,
            ).take(i as int));
            i = i + 1;
        }
        assert(strings_view(self.args@).take(n as int) =~= strings_view(self.args@));
        s
    }

    /// The program as a "not found" message names it.
    pub fn shown_prog(&self) -> (r: String)
        ensures
            r@ == shown_prog(self@),
    {
        if self.secret {
            let mut s = String::new();
            push_str(&mut s, "<secret>");
            assert(s@ =~= "<secret>"@);
            s
        } else {
            self.prog.clone()
        }
    }
}


// ---------------------------------------------------------------------------
// Copies
// ---------------------------------------------------------------------------

fn clone_strings(v: &Vec<String>) -> (r: Vec<String>)
    ensures
        strings_view(r@) == strings_view(v@),
{
    let mut r: Vec<String> = Vec::new();
    let n = v.len();
    let mut i: usize = 0;
    while i < n
        invariant
            n == v@.len(),
            i <= n,
            r@.len() == i,
            forall|k: int| 0 <= k < i ==> #[trigger] r@[k]@ == v@[k]@,
        decreases n - i,
    {
        r.push(v[i].clone());
        i = i + 1;
    }
    assert(strings_view(r@) =~= strings_view(v@));
    r
}

fn clone_changes(v: &Vec<EnvChange>) -> (r: Vec<EnvChange>)
    ensures
        changes_view(r@) == changes_view(v@),
{
    let mut r: Vec<EnvChange> = Vec::new();
    let n = v.len();
    let mut i: usize = 0;
    while i < n
        invariant
            n == v@.len(),
            i <= n,
            r@.len() == i,
            forall|k: int| 0 <= k < i ==> #[trigger] r@[k]@ == v@[k]@,
        decreases n - i,
    {
        r.push(v[i].duplicate());
        i = i + 1;
    }
    assert(changes_view(r@) =~= changes_view(v@));
    r
}

// ---------------------------------------------------------------------------
// The builder
// ---------------------------------------------------------------------------

/// A command: the shell it runs in, and its data.
pub struct CmdView {
    pub shell: ShellView,
    pub data: CmdDataView,
}

/// A command to run in a shell, built up step by step.
#[derive(Debug)]
#[must_use]
pub struct Cmd<'a> {
    shell: &'a Shell,
    data: CmdData,
}

impl<'a> View for Cmd<'a> {
    type V = CmdView;

    closed spec fn view(&self) -> CmdView {
        CmdView { shell: self.shell@, data: self.data@ }
    }
}

impl CmdDataView {
    /// With `a` added after the other arguments.
    pub open spec fn with_arg(self, a: Seq<char>) -> CmdDataView {
        CmdDataView { args: self.args.push(a), ..self }
    }

    /// With `more` added after the other arguments.
    pub open spec fn with_args(self, more: Seq<Seq<char>>) -> CmdDataView {
        CmdDataView { args: self.args + more, ..self }
    }

    /// With `fragment` glued to the end of the last argument, or of the
    /// program when there is no argument.
    pub open spec fn extended(self, fragment: Seq<char>) -> CmdDataView {
        if self.args.len() > 0 {
            CmdDataView {
                args: self.args.update(self.args.len() - 1, self.args.last() + fragment),
                ..self
            }
        } else {
            CmdDataView { prog: self.prog + fragment, ..self }
        }
    }

    /// With `c` added after the other environment changes.
    pub open spec fn with_change(self, c: EnvChangeView) -> CmdDataView {
        CmdDataView { env_changes: self.env_changes.push(c), ..self }
    }

    /// With `more` added after the other environment changes.
    pub open spec fn with_changes(self, more: Seq<EnvChangeView>) -> CmdDataView {
        CmdDataView { env_changes: self.env_changes + more, ..self }
    }
}

impl CmdView {
    /// The command with its data replaced.
    pub open spec fn with_data(self, data: CmdDataView) -> CmdView {
        CmdView { shell: self.shell, data: data }
    }
}

/// The key-value pairs of a slice, by their views.
pub open spec fn pairs_view(vars: Seq<(&str, &str)>) -> Seq<EnvChangeView> {
    vars.map_values(|p: (&str, &str)| EnvChangeView::Assign(p.0@, p.1@))
}

/// The strings of a slice, by their views.
pub open spec fn strs_view(v: Seq<&str>) -> Seq<Seq<char>> {
    v.map_values(|s: &str| s@)
}

impl Shell {
    /// A command that runs `program` in this shell.
    pub fn cmd(&self, program: &str) -> (r: Cmd<'_>)
        ensures
            r@ == (CmdView { shell: self@, data: fresh_cmd(program@) }),
    {
        Cmd { shell: self, data: CmdData::new(program) }
    }
}

impl<'a> Cmd<'a> {
    /// Adds an argument.
    pub fn arg(self, arg: &str) -> (r: Cmd<'a>)
        ensures
            r@ == self@.with_data(self@.data.with_arg(arg@)),
    {
        let ghost s0 = self;
        let mut c = self;
        c.data.args.push(String::from_str(arg));
        assert(strings_view(c.data.args@) =~= s0.data@.args.push(arg@));
        c
    }

    /// Adds the arguments, in order.
    pub fn args(self, args: &[&str]) -> (r: Cmd<'a>)
        ensures
            r@ == self@.with_data(self@.data.with_args(strs_view(args@))),
    {
        let ghost s0 = self;
        let mut c = self;
        let ghost start = strings_view(c.data.args@);
        let n = args.len();
        let mut i: usize = 0;
        while i < n
            invariant
                n == args@.len(),
                i <= n,
                strings_view(c.data.args@) =~= start + strs_view(args@).take(i as int),
                c.data@ == (CmdDataView { args: strings_view(c.data.args@), ..s0.data@ }),
                c.shell == s0.shell,
            decreases n - i,
        {
            let ghost before = c.data.args@;
            let a = String::from_str(args[i]);
            c.data.args.push(a);
            assert(strings_view(c.data.args@) =~= strings_view(before).push(args@[i as int]@));
            assert(strs_view(args@).take(i + 1) =~= strs_view(args@).take(i as int).push(
                args@[i as int]@,
            ));
            assert(strings_view(c.data.args@) =~= start + strs_view(args@).take(i + 1));
            i = i + 1;
        }
        assert(strs_view(args@).take(n as int) =~= strs_view(args@));
        c
    }

    /// Glues `arg_fragment` to the end of the last argument, or of the
    /// program when there is no argument yet.
    pub fn __extend_arg(self, arg_fragment: &str) -> (r: Cmd<'a>)
        ensures
            r@ == self@.with_data(self@.data.extended(arg_fragment@)),
    {
        let mut c = self;
        let ghost args0 = c.data.args@;
        match c.data.args.pop() {
            Some(mut last) => {
                push_str(&mut last, arg_fragment);
                c.data.args.push(last);
                assert(strings_view(c.data.args@) =~= strings_view(args0).update(
                    args0.len() - 1,
                    strings_view(args0).last() + arg_fragment@,
                ));
            },
            None => {
                push_str(&mut c.data.prog, arg_fragment);
            },
        }
        c
    }

    /// Sets the variable `key` to `val` for this command.
    pub fn env(self, key: &str, val: &str) -> (r: Cmd<'a>)
        ensures
            r@ == self@.with_data(
                self@.data.with_change(EnvChangeView::Assign(key@, val@)),
            ),
    {
        let ghost s0 = self;
        let mut c = self;
        c.data.env_changes.push(EnvChange::Assign(String::from_str(key), String::from_str(val)));
        assert(changes_view(c.data.env_changes@) =~= s0.data@.env_changes.push(
            EnvChangeView::Assign(key@, val@),
        ));
        c
    }

    /// Sets each variable of `vars` for this command, in order.
    pub fn envs(self, vars: &[(&str, &str)]) -> (r: Cmd<'a>)
        ensures
            r@ == self@.with_data(self@.data.with_changes(pairs_view(vars@))),
    {
        let ghost s0 = self;
        let mut c = self;
        let ghost start = changes_view(c.data.env_changes@);
        let n = vars.len();
        let mut i: usize = 0;
        while i < n
            invariant
                n == vars@.len(),
                i <= n,
                changes_view(c.data.env_changes@) =~= start + pairs_view(vars@).take(i as int),
                c.data@ == (CmdDataView {
                    env_changes: changes_view(c.data.env_changes@),
                    ..s0.data@
                }),
                c.shell == s0.shell,
            decreases n - i,
        {
            let ghost before = c.data.env_changes@;
            let (k, v) = vars[i];
            let change = EnvChange::Assign(String::from_str(k), String::from_str(v));
            c.data.env_changes.push(change);
            let ghost added = EnvChangeView::Assign(vars@[i as int].0@, vars@[i as int].1@);
            assert(changes_view(c.data.env_changes@) =~= changes_view(before).push(added));
            assert(pairs_view(vars@).take(i + 1) =~= pairs_view(vars@).take(i as int).push(added));
            assert(changes_view(c.data.env_changes@) =~= start + pairs_view(vars@).take(i + 1));
            i = i + 1;
        }
        assert(pairs_view(vars@).take(n as int) =~= pairs_view(vars@));
        c
    }

    /// Removes the variable `key` for this command.
    pub fn env_remove(self, key: &str) -> (r: Cmd<'a>)
        ensures
            r@ == self@.with_data(self@.data.with_change(EnvChangeView::Remove(key@))),
    {
        let ghost s0 = self;
        let mut c = self;
        c.data.env_changes.push(EnvChange::Remove(String::from_str(key)));
        assert(changes_view(c.data.env_changes@) =~= s0.data@.env_changes.push(
            EnvChangeView::Remove(key@),
        ));
        c
    }

    /// Removes every variable for this command.
    pub fn env_clear(self) -> (r: Cmd<'a>)
        ensures
            r@ == self@.with_data(self@.data.with_change(EnvChangeView::Clear)),
    {
        let ghost s0 = self;
        let mut c = self;
        c.data.env_changes.push(EnvChange::Clear);
        assert(changes_view(c.data.env_changes@) =~= s0.data@.env_changes.push(
            EnvChangeView::Clear,
        ));
        c
    }

    /// A non-zero exit status is not an error.
    pub fn ignore_status(self) -> (r: Cmd<'a>)
        ensures
            r@ == self@.with_data(CmdDataView { ignore_status: true, ..self@.data }),
    {
        let mut c = self;
        c.set_ignore_status(true);
        c
    }

    /// Whether a non-zero exit status is not an error.
    pub fn set_ignore_status(&mut self, yes: bool)
        ensures
            final(self)@ == old(self)@.with_data(CmdDataView { ignore_status: yes, ..old(self)@.data }),
    {
        self.data.ignore_status = yes;
    }

    /// The command is not echoed when run.
    pub fn quiet(self) -> (r: Cmd<'a>)
        ensures
            r@ == self@.with_data(CmdDataView { quiet: true, ..self@.data }),
    {
        let mut c = self;
        c.set_quiet(true);
        c
    }

    /// Whether the command is echoed when run.
    pub fn set_quiet(&mut self, yes: bool)
        ensures
            final(self)@ == old(self)@.with_data(CmdDataView { quiet: yes, ..old(self)@.data }),
    {
        self.data.quiet = yes;
    }

    /// The command shows as `<secret>`, in echoes and error messages.
    pub fn secret(self) -> (r: Cmd<'a>)
        ensures
            r@ == self@.with_data(CmdDataView { secret: true, ..self@.data }),
    {
        let mut c = self;
        c.set_secret(true);
        c
    }

    /// Whether the command is secret.
    pub fn set_secret(&mut self, yes: bool)
        ensures
            final(self)@ == old(self)@.with_data(CmdDataView { secret: yes, ..old(self)@.data }),
    {
        self.data.secret = yes;
    }

    /// `stdin` is handed to the standard input of the process.
    pub fn stdin(self, stdin: &[u8]) -> (r: Cmd<'a>)
        ensures
            r@ == self@.with_data(CmdDataView { stdin_contents: Some(stdin@), ..self@.data }),
    {
        let mut c = self;
        c.data.stdin_contents = Some(vstd::slice::slice_to_vec(stdin));
        c
    }

    /// The standard output of the process is discarded.
    pub fn ignore_stdout(self) -> (r: Cmd<'a>)
        ensures
            r@ == self@.with_data(CmdDataView { ignore_stdout: true, ..self@.data }),
    {
        let mut c = self;
        c.set_ignore_stdout(true);
        c
    }

    /// Whether the standard output of the process is discarded.
    pub fn set_ignore_stdout(&mut self, yes: bool)
        ensures
            final(self)@ == old(self)@.with_data(CmdDataView { ignore_stdout: yes, ..old(self)@.data }),
    {
        self.data.ignore_stdout = yes;
    }

    /// The standard error of the process is discarded.
    pub fn ignore_stderr(self) -> (r: Cmd<'a>)
        ensures
            r@ == self@.with_data(CmdDataView { ignore_stderr: true, ..self@.data }),
    {
        let mut c = self;
        c.set_ignore_stderr(true);
        c
    }

    /// Whether the standard error of the process is discarded.
    pub fn set_ignore_stderr(&mut self, yes: bool)
        ensures
            final(self)@ == old(self)@.with_data(CmdDataView { ignore_stderr: yes, ..old(self)@.data }),
    {
        self.data.ignore_stderr = yes;
    }

    /// The data of the command.
    pub fn data(&self) -> (r: &CmdData)
        ensures
            r@ == self@.data,
    {
        &self.data
    }

    /// The command as shown.
    pub fn to_string(&self) -> (r: String)
        ensures
            r@ == display(self@.data),
    {
        self.data.to_string()
    }
}


// ---------------------------------------------------------------------------
// Starting the process
// ---------------------------------------------------------------------------

/// Where a standard stream of the process goes.
#[derive(Clone, Copy, Debug, PartialEq, Eq, Structural)]
pub enum Stdio {
    /// Left as the way the process is started sets it.
    Unset,
    /// The stream of this process is shared.
    Inherit,
    /// The stream is captured (or, for input, fed).
    Piped,
    /// The stream is discarded (or, for input, empty).
    Null,
}

/// How to start the process of a command.
#[derive(Debug)]
pub struct CommandPlan {
    pub prog: String,
    pub cwd: String,
    pub args: Vec<String>,
    /// Applied in order: the shell's bindings, then the command's changes.
    pub env: Vec<EnvChange>,
    pub stdin: Stdio,
    pub stdout: Stdio,
    pub stderr: Stdio,
}

/// The view of a [`CommandPlan`].
pub struct CommandPlanView {
    pub prog: Seq<char>,
    pub cwd: Seq<char>,
    pub args: Seq<Seq<char>>,
    pub env: Seq<EnvChangeView>,
    pub stdin: Stdio,
    pub stdout: Stdio,
    pub stderr: Stdio,
}

impl View for CommandPlan {
    type V = CommandPlanView;

    open spec fn view(&self) -> CommandPlanView {
        CommandPlanView {
            prog: self.prog@,
            cwd: self.cwd@,
            args: strings_view(self.args@),
            env: changes_view(self.env@),
            stdin: self.stdin,
            stdout: self.stdout,
            stderr: self.stderr,
        }
    }
}

/// The shell's environment as changes to apply: each binding set, oldest
/// first.
pub open spec fn shell_env_changes(env: Seq<(Seq<char>, Seq<char>)>) -> Seq<EnvChangeView> {
    env.map_values(|p: (Seq<char>, Seq<char>)| EnvChangeView::Assign(p.0, p.1))
}

/// How a command is started by default: in the shell's directory, with the
/// shell's bindings and then the command's own changes, with ignored output
/// streams discarded and the other streams left unset.
pub open spec fn command_of(c: CmdView) -> CommandPlanView {
    CommandPlanView {
        prog: c.data.prog,
        cwd: c.shell.cwd,
        args: c.data.args,
        env: shell_env_changes(c.shell.env) + c.data.env_changes,
        stdin: Stdio::Unset,
        stdout: if c.data.ignore_stdout {
            Stdio::Null
        } else {
            Stdio::Unset
        },
        stderr: if c.data.ignore_stderr {
            Stdio::Null
        } else {
            Stdio::Unset
        },
    }
}

/// How a command is started when it runs with the streams of this process:
/// as [`command_of`], except that its input is fed from its stdin contents
/// when it has some.
pub open spec fn run_command_of(c: CmdView) -> CommandPlanView {
    CommandPlanView {
        stdin: if c.data.stdin_contents is Some {
            Stdio::Piped
        } else {
            Stdio::Unset
        },
        ..command_of(c)
    }
}

/// How a command is started when its output is collected: as
/// [`command_of`], except that a stream that is not ignored is captured when
/// it is to be read and shared otherwise, and that the input is fed from the
/// command's stdin contents, or empty when there are none.
pub open spec fn output_command_of(c: CmdView, read_stdout: bool, read_stderr: bool) -> CommandPlanView {
    CommandPlanView {
        stdin: if c.data.stdin_contents is Some {
            Stdio::Piped
        } else {
            Stdio::Null
        },
        stdout: if c.data.ignore_stdout {
            Stdio::Null
        } else if read_stdout {
            Stdio::Piped
        } else {
            Stdio::Inherit
        },
        stderr: if c.data.ignore_stderr {
            Stdio::Null
        } else if read_stderr {
            Stdio::Piped
        } else {
            Stdio::Inherit
        },
        ..command_of(c)
    }
}

/// The echo of a command that runs: `$ ` and the command as shown, unless
/// the command is quiet.
pub open spec fn echo_of(d: CmdDataView) -> Option<Seq<char>> {
    if d.quiet {
        None
    } else {
        Some("$ "@ + display(d))
    }
}

/// Whether a status is accepted: success, or any status when the command
/// ignores it.
pub open spec fn status_ok(d: CmdDataView, status: ExitStatus) -> bool {
    status.succeeded() || d.ignore_status
}

/// What collecting the output of a command comes to: an I/O error while
/// waiting, then an error feeding the input, then a status that is not
/// accepted, are errors in that order; otherwise the output.
pub open spec fn output_result(
    d: CmdDataView,
    waited: Result<OutputView, IoErrorView>,
    stdin_written: Option<Result<(), IoErrorView>>,
) -> Result<OutputView, ErrorView> {
    match waited {
        Err(e) => Err(ErrorView::CmdIo { err: e, cmd: d }),
        Ok(o) => match stdin_written {
            Some(Err(e)) => Err(ErrorView::CmdStdin { err: e, cmd: d }),
            _ => if status_ok(d, o.status) {
                Ok(o)
            } else {
                Err(ErrorView::CmdStatus { cmd: d, status: o.status })
            },
        },
    }
}

/// What running a command with [`run_command_of`] comes to: failing to start or
/// wait for the process, then failing to feed its input, then a status that
/// is not accepted, are errors in that order; otherwise success.
pub open spec fn run_result(
    d: CmdDataView,
    waited: Result<ExitStatus, IoErrorView>,
    stdin_written: Option<Result<(), IoErrorView>>,
) -> Result<(), ErrorView> {
    match waited {
        Err(e) => Err(ErrorView::CmdIo { err: e, cmd: d }),
        Ok(status) => match stdin_written {
            Some(Err(e)) => Err(ErrorView::CmdStdin { err: e, cmd: d }),
            _ => if status_ok(d, status) {
                Ok(())
            } else {
                Err(ErrorView::CmdStatus { cmd: d, status })
            },
        },
    }
}

/// The view of the outcome of starting and waiting for a process that
/// shares the output streams.
pub open spec fn status_view(w: Result<ExitStatus, IoError>) -> Result<ExitStatus, IoErrorView> {
    match w {
        Ok(s) => Ok(s),
        Err(e) => Err(e@),
    }
}

/// What reading one stream of a finished command comes to: a status that
/// is not accepted is an error; otherwise the stream's text without its
/// final line ending, or an error when it is not UTF-8.
pub open spec fn read_result(d: CmdDataView, o: OutputView, read_stderr: bool) -> Result<Seq<char>, ErrorView> {
    if !status_ok(d, o.status) {
        Err(ErrorView::CmdStatus { cmd: d, status: o.status })
    } else {
        match utf8_text(if read_stderr { o.stderr } else { o.stdout }) {
            Ok(t) => Ok(strip_line_end(t)),
            Err(m) => Err(ErrorView::CmdUtf8 { err: m, cmd: d }),
        }
    }
}

/// The view of the outcome of waiting for a process.
pub open spec fn waited_view(w: Result<Output, IoError>) -> Result<OutputView, IoErrorView> {
    match w {
        Ok(o) => Ok(o@),
        Err(e) => Err(e@),
    }
}

/// The view of the outcome of feeding the input of a process.
pub open spec fn written_view(w: Option<Result<(), IoError>>) -> Option<Result<(), IoErrorView>> {
    match w {
        None => None,
        Some(Ok(())) => Some(Ok(())),
        Some(Err(e)) => Some(Err(e@)),
    }
}

impl<'a> Cmd<'a> {
    fn env_plan(&self) -> (r: Vec<EnvChange>)
        ensures
            changes_view(r@) == shell_env_changes(self@.shell.env) + self@.data.env_changes,
    {
        let bindings = self.shell.env_bindings();
        let mut r: Vec<EnvChange> = Vec::new();
        let n = bindings.len();
        let mut i: usize = 0;
        while i < n
            invariant
                n == bindings@.len(),
                i <= n,
                r@.len() == i,
                crate::shell::env_view(bindings@) == self@.shell.env,
                forall|k: int|
                    0 <= k < i ==> #[trigger] r@[k]@ == EnvChangeView::Assign(
                        bindings@[k].0@,
                        bindings@[k].1@,
                    ),
            decreases n - i,
        {
            let k = bindings[i].0.clone();
            let v = bindings[i].1.clone();
            r.push(EnvChange::Assign(k, v));
            i = i + 1;
        }
        assert(changes_view(r@) =~= shell_env_changes(self@.shell.env));
        let ghost head = r@;
        let m = self.data.env_changes.len();
        let mut j: usize = 0;
        while j < m
            invariant
                m == self.data.env_changes@.len(),
                j <= m,
                r@.len() == head.len() + j,
                changes_view(head) == shell_env_changes(self@.shell.env),
                forall|k: int| 0 <= k < head.len() ==> #[trigger] r@[k] == head[k],
                forall|k: int|
                    0 <= k < j ==> #[trigger] r@[head.len() + k]@ == self.data.env_changes@[k]@,
            decreases m - j,
        {
            r.push(self.data.env_changes[j].duplicate());
            j = j + 1;
        }
        assert forall|k: int| head.len() <= k < r@.len() implies #[trigger] r@[k]@
            == self.data.env_changes@[k - head.len()]@ by {
            assert(r@[head.len() + (k - head.len())] == r@[k]);
        }
        assert(changes_view(r@) =~= changes_view(head) + self@.data.env_changes);
        r
    }

    /// How to start the process by default, as the conversion into a
    /// process command gives it.
    pub fn to_command(&self) -> (r: CommandPlan)
        ensures
            r@ == command_of(self@),
    {
        CommandPlan {
            prog: self.data.prog.clone(),
            cwd: self.shell.current_dir(),
            args: clone_strings(&self.data.args),
            env: self.env_plan(),
            stdin: Stdio::Unset,
            stdout: if self.data.ignore_stdout {
                Stdio::Null
            } else {
                Stdio::Unset
            },
            stderr: if self.data.ignore_stderr {
                Stdio::Null
            } else {
                Stdio::Unset
            },
        }
    }

    /// How to start the process when it runs with the streams of this
    /// process, its input fed from its stdin contents when it has some.
    pub fn run_command(&self) -> (r: CommandPlan)
        ensures
            r@ == run_command_of(self@),
    {
        let mut plan = self.to_command();
        if self.data.stdin_contents.is_some() {
            plan.stdin = Stdio::Piped;
        }
        plan
    }

    /// How to start the process when its output is collected, reading
    /// standard output, standard error, or both.
    pub fn output_command(&self, read_stdout: bool, read_stderr: bool) -> (r: CommandPlan)
        ensures
            r@ == output_command_of(self@, read_stdout, read_stderr),
    {
        let mut plan = self.to_command();
        if !self.data.ignore_stdout {
            plan.stdout = if read_stdout {
                Stdio::Piped
            } else {
                Stdio::Inherit
            };
        }
        if !self.data.ignore_stderr {
            plan.stderr = if read_stderr {
                Stdio::Piped
            } else {
                Stdio::Inherit
            };
        }
        plan.stdin = match &self.data.stdin_contents {
            Some(_) => Stdio::Piped,
            None => Stdio::Null,
        };
        plan
    }

    /// The bytes to feed to the input of the process, if any.
    pub fn stdin_data(&self) -> (r: Option<Vec<u8>>)
        ensures
            match self@.data.stdin_contents {
                Some(b) => r matches Some(v) && v@ == b,
                None => r is None,
            },
    {
        match &self.data.stdin_contents {
            Some(v) => Some(vstd::slice::slice_to_vec(v.as_slice())),
            None => None,
        }
    }

    /// The line to echo before the command runs, unless it is quiet.
    pub fn echo_line(&self) -> (r: Option<String>)
        ensures
            match echo_of(self@.data) {
                Some(l) => r matches Some(x) && x@ == l,
                None => r is None,
            },
    {
        if self.data.quiet {
            None
        } else {
            let mut s = String::new();
            push_str(&mut s, "$ ");
            let shown = self.data.to_string();
            push_str(&mut s, shown.as_str());
            assert(s@ =~= "$ "@ + display(self@.data));
            Some(s)
        }
    }

    /// Accepts a status that is a success, or any status when the command
    /// ignores it; any other status is an error.
    pub fn check_status(&self, status: ExitStatus) -> (r: Result<(), Error>)
        ensures
            r is Ok <==> status_ok(self@.data, status),
            r matches Err(e) ==> e@ == (ErrorView::CmdStatus { cmd: self@.data, status }),
    {
        if status.success() || self.data.ignore_status {
            Ok(())
        } else {
            Err(Error::new_cmd_status(&self.data, status))
        }
    }

    /// What running the command comes to, from the outcome of starting and
    /// waiting for the process (a failure to start it is an `Err` there) and,
    /// when input was fed, of feeding it.
    pub fn finish_run(
        &self,
        waited: Result<ExitStatus, IoError>,
        stdin_written: Option<Result<(), IoError>>,
    ) -> (r: Result<(), Error>)
        ensures
            match r {
                Ok(()) => run_result(self@.data, status_view(waited), written_view(stdin_written))
                    == Ok::<(), ErrorView>(()),
                Err(e) => run_result(self@.data, status_view(waited), written_view(stdin_written))
                    == Err::<(), ErrorView>(e@),
            },
    {
        let status = match waited {
            Ok(s) => s,
            Err(e) => return Err(Error::new_cmd_io(&self.data, e)),
        };
        match stdin_written {
            Some(Err(e)) => return Err(Error::new_cmd_stdin(&self.data, e)),
            _ => {},
        }
        self.check_status(status)
    }

    /// What collecting the output comes to, from the outcome of starting and
    /// waiting for the process (a failure to start it is an `Err` there) and,
    /// when input was fed, of feeding it.
    pub fn finish_output(
        &self,
        waited: Result<Output, IoError>,
        stdin_written: Option<Result<(), IoError>>,
    ) -> (r: Result<Output, Error>)
        ensures
            match r {
                Ok(o) => output_result(self@.data, waited_view(waited), written_view(stdin_written))
                    == Ok::<OutputView, ErrorView>(o@),
                Err(e) => output_result(self@.data, waited_view(waited), written_view(stdin_written))
                    == Err::<OutputView, ErrorView>(e@),
            },
    {
        let output = match waited {
            Ok(o) => o,
            Err(e) => return Err(Error::new_cmd_io(&self.data, e)),
        };
        match stdin_written {
            Some(Err(e)) => return Err(Error::new_cmd_stdin(&self.data, e)),
            _ => {},
        }
        match self.check_status(output.status) {
            Ok(()) => Ok(output),
            Err(e) => Err(e),
        }
    }

    /// What reading standard output (or, with `read_stderr`, standard
    /// error) of the finished process comes to.
    pub fn finish_read(&self, output: Output, read_stderr: bool) -> (r: Result<String, Error>)
        ensures
            match r {
                Ok(t) => read_result(self@.data, output@, read_stderr) == Ok::<Seq<char>, ErrorView>(t@),
                Err(e) => read_result(self@.data, output@, read_stderr) == Err::<Seq<char>, ErrorView>(e@),
            },
    {
        if let Err(e) = self.check_status(output.status) {
            return Err(e);
        }
        let stream = if read_stderr {
            output.stderr
        } else {
            output.stdout
        };
        match decode_utf8_text(stream) {
            Ok(text) => {
                let mut text = text;
                trim_line_end(&mut text);
                Ok(text)
            },
            Err(m) => Err(Error::new_cmd_utf8(&self.data, m)),
        }
    }
}

// ---------------------------------------------------------------------------
// Laws
// ---------------------------------------------------------------------------

/// Two secret commands look alike: they show the same, and each error about
/// one reads as the same error about the other.
pub proof fn law_secret_commands_look_alike(
    a: CmdDataView,
    b: CmdDataView,
    status: ExitStatus,
    io: IoErrorView,
    utf8: Seq<char>,
)
    requires
        a.secret,
        b.secret,
    ensures
        display(a) == "<secret>"@,
        display(a) == display(b),
        crate::error::error_message(ErrorView::CmdStatus { cmd: a, status })
            == crate::error::error_message(ErrorView::CmdStatus { cmd: b, status }),
        crate::error::error_message(ErrorView::CmdIo { err: io, cmd: a })
            == crate::error::error_message(ErrorView::CmdIo { err: io, cmd: b }),
        crate::error::error_message(ErrorView::CmdUtf8 { err: utf8, cmd: a })
            == crate::error::error_message(ErrorView::CmdUtf8 { err: utf8, cmd: b }),
        crate::error::error_message(ErrorView::CmdStdin { err: io, cmd: a })
            == crate::error::error_message(ErrorView::CmdStdin { err: io, cmd: b }),
{
}

/// Gluing a fragment onto a command with arguments changes only its last
/// argument; onto one without, only its program.
pub proof fn law_extend_arg(d: CmdDataView, fragment: Seq<char>)
    ensures
        d.args.len() > 0 ==> d.extended(fragment).args.len() == d.args.len() && d.extended(
            fragment,
        ).args.last() == d.args.last() + fragment && d.extended(fragment).args.drop_last()
            == d.args.drop_last() && d.extended(fragment).prog == d.prog,
        d.args.len() == 0 ==> d.extended(fragment).prog == d.prog + fragment
            && d.extended(fragment).args == d.args,
{
    if d.args.len() > 0 {
        assert(d.extended(fragment).args.drop_last() =~= d.args.drop_last());
    }
}

/// The environment of a started process is the shell's bindings, oldest
/// first, followed by the command's own changes; the two ways of starting a
/// command differ only in their standard streams.
pub proof fn law_command_environment(c: CmdView, read_stdout: bool, read_stderr: bool)
    ensures
        command_of(c).env.len() == c.shell.env.len() + c.data.env_changes.len(),
        forall|k: int|
            0 <= k < c.shell.env.len() ==> #[trigger] command_of(c).env[k] == EnvChangeView::Assign(
                c.shell.env[k].0,
                c.shell.env[k].1,
            ),
        forall|k: int|
            0 <= k < c.data.env_changes.len() ==> command_of(c).env[c.shell.env.len() + k]
                == #[trigger] c.data.env_changes[k],
        output_command_of(c, read_stdout, read_stderr).env == command_of(c).env,
        output_command_of(c, read_stdout, read_stderr).args == command_of(c).args,
        output_command_of(c, read_stdout, read_stderr).cwd == command_of(c).cwd,
        output_command_of(c, read_stdout, read_stderr).prog == command_of(c).prog,
{
}

/// The stdin contents given to a command reach its process when it runs or
/// when its output is collected, and its input is never fed otherwise; the
/// default start leaves the input as it is.
pub proof fn law_stdin_is_fed(c: CmdView, read_stdout: bool, read_stderr: bool)
    ensures
        c.data.stdin_contents is Some ==> run_command_of(c).stdin == Stdio::Piped
            && output_command_of(c, read_stdout, read_stderr).stdin == Stdio::Piped,
        c.data.stdin_contents is None ==> run_command_of(c).stdin != Stdio::Piped
            && output_command_of(c, read_stdout, read_stderr).stdin != Stdio::Piped,
        command_of(c).stdin == Stdio::Unset,
        run_command_of(c).env == command_of(c).env,
        run_command_of(c).stdout == command_of(c).stdout,
        run_command_of(c).stderr == command_of(c).stderr,
{
}

/// Reading a stream strips one final line feed and then one final carriage
/// return, and nothing else.
pub proof fn law_read_strips_one_line_end(t: Seq<char>)
    ensures
        strip_line_end(t + seq!['\r', '\n']) == t,
        strip_line_end(t + seq!['\n', '\n']) == t + seq!['\n'],
        t.len() == 0 || (t.last() != '\n' && t.last() != '\r') ==> strip_line_end(t) == t,
{
    assert((t + seq!['\r', '\n']).drop_last() =~= t + seq!['\r']);
    assert((t + seq!['\r']).drop_last() =~= t);
    assert((t + seq!['\n', '\n']).drop_last() =~= t + seq!['\n']);
}

/// Showing a command that is not secret shows every argument: one more
/// argument adds exactly its own text at the end (a space and the argument,
/// or a space and the argument quoted and escaped when it holds ASCII
/// whitespace), and a command without arguments shows as its program.
pub proof fn law_display_shows_every_argument(d: CmdDataView, a: Seq<char>)
    ensures
        !d.secret ==> display(d.with_arg(a)) == display(d) + arg_text(a),
        !d.secret && d.args.len() == 0 ==> display(d) == d.prog,
        !has_ascii_ws(a) ==> arg_text(a) == seq![' '] + a,
        has_ascii_ws(a) ==> arg_text(a) == seq![' ', '"'] + escape_str(a) + seq!['"'],
        d.secret ==> display(d.with_arg(a)) == display(d),
{
    let args = d.with_arg(a).args;
    assert(args.drop_last() =~= d.args);
    assert(args.last() == a);
    if d.args.len() == 0 {
        assert(args_text(d.args) =~= Seq::<char>::empty());
        assert(d.prog + args_text(d.args) =~= d.prog);
    }
    assert(d.prog + args_text(args) =~= d.prog + args_text(d.args) + arg_text(a));
}

/// Showing a command lists its arguments in order: the shown text of the
/// arguments is the shown text of each, one after the other.
pub proof fn law_display_args_concat(x: Seq<Seq<char>>, y: Seq<Seq<char>>)
    ensures
        args_text(x + y) == args_text(x) + args_text(y),
    decreases y.len(),
{
    if y.len() == 0 {
        assert(x + y =~= x);
        assert(args_text(x) + args_text(y) =~= args_text(x));
    } else {
        law_display_args_concat(x, y.drop_last());
        assert((x + y).drop_last() =~= x + y.drop_last());
        assert((x + y).last() == y.last());
        assert(args_text(x + y) =~= args_text(x) + args_text(y));
    }
}

/// The exit status is accepted exactly when it is a success (exit code 0)
/// or the command ignores its status.
pub proof fn law_status_accepted(d: CmdDataView, status: ExitStatus)
    ensures
        status_ok(d, status) <==> (status.code == Some(0i32) || d.ignore_status),
{
}

/// A command that ignores its status comes to the same result whatever its
/// status: reading, collecting output and running all give what they give
/// for a successful process. A status error only ever comes from a command
/// that does not ignore its status and did not exit with code 0.
pub proof fn law_ignored_status_changes_nothing(
    d: CmdDataView,
    o: OutputView,
    read_stderr: bool,
    status: ExitStatus,
    written: Option<Result<(), IoErrorView>>,
)
    ensures
        d.ignore_status ==> read_result(d, o, read_stderr) == read_result(
            d,
            OutputView { status: ExitStatus { code: Some(0i32), signal: None }, ..o },
            read_stderr,
        ),
        d.ignore_status ==> output_result(d, Ok(o), written) == match written {
            Some(Err(e)) => Err(ErrorView::CmdStdin { err: e, cmd: d }),
            _ => Ok::<OutputView, ErrorView>(o),
        },
        d.ignore_status ==> run_result(d, Ok(status), written) == match written {
            Some(Err(e)) => Err(ErrorView::CmdStdin { err: e, cmd: d }),
            _ => Ok::<(), ErrorView>(()),
        },
        read_result(d, o, read_stderr) matches Err(ErrorView::CmdStatus { cmd, status: st })
            ==> !d.ignore_status && o.status.code != Some(0i32) && st == o.status && cmd == d,
{
}

/// Reading gives the decoded text of the chosen stream, with the final line
/// ending stripped, whenever the status is accepted and the stream is UTF-8;
/// the other stream plays no part.
pub proof fn law_read_gives_stream_text(d: CmdDataView, o: OutputView, read_stderr: bool, other: Seq<u8>)
    ensures
        (o.status.code == Some(0i32) || d.ignore_status) ==> match crate::error::utf8_text(
            if read_stderr {
                o.stderr
            } else {
                o.stdout
            },
        ) {
            Ok(t) => read_result(d, o, read_stderr) == Ok::<Seq<char>, ErrorView>(strip_line_end(t)),
            Err(m) => read_result(d, o, read_stderr) == Err::<Seq<char>, ErrorView>(
                ErrorView::CmdUtf8 { err: m, cmd: d },
            ),
        },
        read_result(d, o, false) == read_result(d, OutputView { stderr: other, ..o }, false),
        read_result(d, o, true) == read_result(d, OutputView { stdout: other, ..o }, true),
{
}

/// Each of the switches `ignore_stdout` and `ignore_stderr` discards its own
/// stream, and only that one, however the command is started; a stream that
/// is not ignored is captured exactly when it is read.
pub proof fn law_ignored_streams(c: CmdView, read_stdout: bool, read_stderr: bool)
    ensures
        command_of(c).stdout == Stdio::Null <==> c.data.ignore_stdout,
        command_of(c).stderr == Stdio::Null <==> c.data.ignore_stderr,
        run_command_of(c).stdout == Stdio::Null <==> c.data.ignore_stdout,
        run_command_of(c).stderr == Stdio::Null <==> c.data.ignore_stderr,
        output_command_of(c, read_stdout, read_stderr).stdout == Stdio::Null <==> c.data.ignore_stdout,
        output_command_of(c, read_stdout, read_stderr).stderr == Stdio::Null <==> c.data.ignore_stderr,
        !c.data.ignore_stdout ==> (output_command_of(c, read_stdout, read_stderr).stdout
            == Stdio::Piped <==> read_stdout),
        !c.data.ignore_stderr ==> (output_command_of(c, read_stdout, read_stderr).stderr
            == Stdio::Piped <==> read_stderr),
        command_of(c).stdout != Stdio::Piped && command_of(c).stderr != Stdio::Piped,
        command_of(c).prog == c.data.prog && command_of(c).args == c.data.args && command_of(c).cwd
            == c.shell.cwd,
{
}

/// A command is echoed exactly when it is not quiet, as `$ ` and its shown
/// text.
pub proof fn law_echo(d: CmdDataView)
    ensures
        echo_of(d) is None <==> d.quiet,
        !d.quiet ==> echo_of(d) == Some("$ "@ + display(d)),
{
}

/// Outcomes are judged in order: a failure to start or wait for the process
/// is reported whatever else happened, then a failure to feed its input,
/// then the status; a run and a collection of output agree on which error
/// comes, and succeed together.
pub proof fn law_outcome_order(
    d: CmdDataView,
    o: OutputView,
    io: IoErrorView,
    written: Option<Result<(), IoErrorView>>,
)
    ensures
        output_result(d, Err(io), written) == Err::<OutputView, ErrorView>(
            ErrorView::CmdIo { err: io, cmd: d },
        ),
        run_result(d, Err(io), written) == Err::<(), ErrorView>(ErrorView::CmdIo { err: io, cmd: d }),
        output_result(d, Ok(o), Some(Err(io))) == Err::<OutputView, ErrorView>(
            ErrorView::CmdStdin { err: io, cmd: d },
        ),
        run_result(d, Ok(o.status), Some(Err(io))) == Err::<(), ErrorView>(
            ErrorView::CmdStdin { err: io, cmd: d },
        ),
        output_result(d, Ok(o), written) is Ok <==> run_result(d, Ok(o.status), written) is Ok,
        !(written matches Some(Err(_))) && o.status.code != Some(0i32) && !d.ignore_status
            ==> output_result(d, Ok(o), written) == Err::<OutputView, ErrorView>(
            ErrorView::CmdStatus { cmd: d, status: o.status },
        ),
        output_result(d, Ok(o), written) matches Ok(x) ==> x == o,
{
}

/// The builder only adds: a fresh command has nothing but its program;
/// adding an argument puts it after the others and keeps everything else;
/// adding several puts them after the others in their order; adding an
/// environment change puts it after the others and keeps everything else.
pub proof fn law_builder_adds(
    d: CmdDataView,
    prog: Seq<char>,
    a: Seq<char>,
    more: Seq<Seq<char>>,
    c: EnvChangeView,
)
    ensures
        fresh_cmd(prog).prog == prog && fresh_cmd(prog).args.len() == 0
            && fresh_cmd(prog).env_changes.len() == 0 && !fresh_cmd(prog).secret
            && !fresh_cmd(prog).quiet && !fresh_cmd(prog).ignore_status
            && fresh_cmd(prog).stdin_contents is None && !fresh_cmd(prog).ignore_stdout
            && !fresh_cmd(prog).ignore_stderr,
        d.with_arg(a).args.len() == d.args.len() + 1,
        d.with_arg(a).args[d.args.len() as int] == a,
        forall|k: int| 0 <= k < d.args.len() ==> #[trigger] d.with_arg(a).args[k] == d.args[k],
        d.with_arg(a) == (CmdDataView { args: d.with_arg(a).args, ..d }),
        d.with_args(more).args.len() == d.args.len() + more.len(),
        forall|k: int| 0 <= k < d.args.len() ==> #[trigger] d.with_args(more).args[k] == d.args[k],
        forall|k: int|
            0 <= k < more.len() ==> #[trigger] d.with_args(more).args[d.args.len() + k] == more[k],
        d.with_args(more) == (CmdDataView { args: d.with_args(more).args, ..d }),
        d.with_change(c).env_changes.len() == d.env_changes.len() + 1,
        d.with_change(c).env_changes[d.env_changes.len() as int] == c,
        forall|k: int|
            0 <= k < d.env_changes.len() ==> #[trigger] d.with_change(c).env_changes[k]
                == d.env_changes[k],
        d.with_change(c) == (CmdDataView { env_changes: d.with_change(c).env_changes, ..d }),
{
}

} // verus!
