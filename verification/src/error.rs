//! Errors, and the outcomes of outside operations that they are made from.
use vstd::prelude::*;
use vstd::utf8::{decode_utf8, valid_utf8};
use crate::cmd::{CmdData, CmdDataView, display, shown_prog};
use crate::text::{
    chars_of, decimal, digit_char, push_char, push_signed_decimal, push_str, signed_decimal,
};

verus! {

// ---------------------------------------------------------------------------
// Outcomes of outside operations
// ---------------------------------------------------------------------------

/// The one distinction between I/O failures that the messages make.
#[derive(Clone, Copy, Debug, PartialEq, Eq, Structural)]
pub enum IoErrorKind {
    NotFound,
    Other,
}

/// A failed I/O operation: its kind and its message.
#[derive(Debug)]
pub struct IoError {
    pub kind: IoErrorKind,
    pub message: String,
}

/// The view of an [`IoError`].
pub struct IoErrorView {
    pub kind: IoErrorKind,
    pub message: Seq<char>,
}

impl View for IoError {
    type V = IoErrorView;

    open spec fn view(&self) -> IoErrorView {
        IoErrorView { kind: self.kind, message: self.message@ }
    }
}

/// The suffix with which the operating system's error texts end: the marker
/// before the error number.
pub open spec fn os_code_marker() -> Seq<char> {
    seq![' ', '(', 'o', 's', ' ', 'e', 'r', 'r', 'o', 'r', ' ']
}

/// Whether `c` is a decimal digit.
pub open spec fn is_digit(c: char) -> bool {
    '0' <= c <= '9'
}

/// Where the run of decimal digits at the end of `s` starts.
pub open spec fn trailing_digits_start(s: Seq<char>) -> int
    decreases s.len(),
{
    if s.len() > 0 && is_digit(s.last()) {
        trailing_digits_start(s.drop_last())
    } else {
        s.len() as int
    }
}

/// `s` without a final ` (os error N)`, when it ends so.
pub open spec fn strip_os_code(s: Seq<char>) -> Seq<char> {
    let m = os_code_marker();
    let body = s.drop_last();
    let i = trailing_digits_start(body);
    if s.len() > 0 && s.last() == ')' && i < body.len() && i >= m.len() && body.subrange(
        i - m.len(),
        i,
    ) == m {
        body.take(i - m.len())
    } else {
        s
    }
}

/// `s` with a first ASCII capital letter made small.
pub open spec fn lower_first(s: Seq<char>) -> Seq<char> {
    if s.len() > 0 && 'A' <= s[0] <= 'Z' {
        s.update(0, ((s[0] as int) + 32) as char)
    } else {
        s
    }
}

/// How an operating-system error text reads in messages: without its
/// error number, and starting with a small letter (so "No such file or
/// directory (os error 2)" reads "no such file or directory").
pub open spec fn os_error_text(raw: Seq<char>) -> Seq<char> {
    lower_first(strip_os_code(raw))
}

fn digits_start(cs: &Vec<char>, end: usize) -> (i: usize)
    requires
        end <= cs@.len(),
    ensures
        i == trailing_digits_start(cs@.take(end as int)),
{
    let mut i = end;
    assert(cs@.take(end as int).take(i as int) =~= cs@.take(end as int));
    while i > 0 && '0' <= cs[i - 1] && cs[i - 1] <= '9'
        invariant
            i <= end <= cs@.len(),
            trailing_digits_start(cs@.take(end as int)) == trailing_digits_start(cs@.take(i as int)),
        decreases i,
    {
        assert(cs@.take(i as int).drop_last() =~= cs@.take(i - 1));
        i = i - 1;
    }
    i
}

/// The operating system's error texts without their number, starting small.
pub fn describe_os_error(raw: &str) -> (r: String)
    ensures
        r@ == os_error_text(raw@),
{
    let cs = chars_of(raw);
    let n = cs.len();
    let m = chars_of(" (os error ");
    proof {
        reveal_strlit(" (os error ");
        assert(m@ =~= os_code_marker());
    }
    let mut keep = n;
    if n > 0 && cs[n - 1] == ')' {
        let ghost body = cs@.drop_last();
        let i = digits_start(&cs, n - 1);
        assert(cs@.take(n - 1) =~= body);
        if i < n - 1 && i >= m.len() {
            let start = i - m.len();
            let mut k: usize = 0;
            let mut same = true;
            while k < m.len()
                invariant
                    start + m@.len() == i,
                    i < n == cs@.len(),
                    k <= m@.len(),
                    same == (forall|t: int| 0 <= t < k ==> cs@[start + t] == #[trigger] m@[t]),
                decreases m@.len() - k,
            {
                if cs[start + k] != m[k] {
                    same = false;
                }
                k = k + 1;
            }
            proof {
                if same {
                    assert(body.subrange(i - m@.len(), i as int) =~= m@);
                } else {
                    let t = choose|t: int| 0 <= t < m@.len() && cs@[start + t] != m@[t];
                    assert(body.subrange(i - m@.len(), i as int)[t] != m@[t]);
                }
            }
            if same {
                keep = start;
            }
        }
    }
    let mut r = String::new();
    let mut j: usize = 0;
    while j < keep
        invariant
            keep <= n == cs@.len(),
            j <= keep,
            r@ == lower_first(cs@.take(keep as int)).take(j as int),
        decreases keep - j,
    {
        let c = cs[j];
        if j == 0 && 'A' <= c && c <= 'Z' {
            let low = ((c as u8) + 32) as char;
            push_char(&mut r, low);
        } else {
            push_char(&mut r, c);
        }
        assert(r@ =~= lower_first(cs@.take(keep as int)).take(j + 1));
        j = j + 1;
    }
    assert(lower_first(cs@.take(keep as int)).take(keep as int) =~= lower_first(cs@.take(keep as int)));
    proof {
        if keep == n {
            assert(cs@.take(n as int) =~= cs@);
        } else {
            assert(cs@.drop_last().take(keep as int) =~= cs@.take(keep as int));
        }
    }
    r
}

impl IoError {
    /// An I/O error of `kind` whose message is the operating system's text
    /// `raw`, as [`describe_os_error`] words it.
    pub fn from_os_text(kind: IoErrorKind, raw: &str) -> (r: IoError)
        ensures
            r@ == (IoErrorView { kind, message: os_error_text(raw@) }),
    {
        IoError { kind, message: describe_os_error(raw) }
    }
}

/// Why an environment variable could not be read.
#[derive(Debug)]
pub enum VarError {
    /// It is not set.
    NotPresent,
    /// Its value is not Unicode; the string renders the raw value.
    NotUnicode(String),
}

/// The view of a [`VarError`].
pub enum VarErrorView {
    NotPresent,
    NotUnicode(Seq<char>),
}

impl View for VarError {
    type V = VarErrorView;

    open spec fn view(&self) -> VarErrorView {
        match self {
            VarError::NotPresent => VarErrorView::NotPresent,
            VarError::NotUnicode(s) => VarErrorView::NotUnicode(s@),
        }
    }
}

/// How a process ended: its exit code, or `None` when a signal ended it,
/// and then the signal, where the platform tells it.
#[derive(Clone, Copy, Debug, PartialEq, Eq, Structural)]
pub struct ExitStatus {
    pub code: Option<i32>,
    pub signal: Option<i32>,
}

impl ExitStatus {
    /// Success is exiting with code 0.
    pub open spec fn succeeded(self) -> bool {
        self.code == Some(0i32)
    }

    /// Whether the process exited with code 0.
    pub fn success(&self) -> (b: bool)
        ensures
            b == self.succeeded(),
    {
        match self.code {
            Some(c) => c == 0,
            None => false,
        }
    }
}

/// What a finished process left: its status and the captured streams.
#[derive(Debug)]
pub struct Output {
    pub status: ExitStatus,
    pub stdout: Vec<u8>,
    pub stderr: Vec<u8>,
}

/// The view of an [`Output`].
pub struct OutputView {
    pub status: ExitStatus,
    pub stdout: Seq<u8>,
    pub stderr: Seq<u8>,
}

impl View for Output {
    type V = OutputView;

    open spec fn view(&self) -> OutputView {
        OutputView { status: self.status, stdout: self.stdout@, stderr: self.stderr@ }
    }
}

// ---------------------------------------------------------------------------
// UTF-8
// ---------------------------------------------------------------------------

/// What `std::string::FromUtf8Error` displays for bytes that are not UTF-8.
pub uninterp spec fn utf8_error_text(bytes: Seq<u8>) -> Seq<char>;

/// The text of `bytes` (`Ok`) when they are UTF-8, else the decoding error
/// as displayed (`Err`).
pub open spec fn utf8_text(bytes: Seq<u8>) -> Result<Seq<char>, Seq<char>> {
    if valid_utf8(bytes) {
        Ok(decode_utf8(bytes))
    } else {
        Err(utf8_error_text(bytes))
    }
}

/// Calls `String::from_utf8`, which succeeds exactly on UTF-8 bytes and then
/// holds their text; the error is turned into its displayed text, which the
/// contract only names.
#[verifier::external_body]
pub(crate) fn decode_utf8_text(bytes: Vec<u8>) -> (r: Result<String, String>)
    ensures
        r is Ok <==> valid_utf8(bytes@),
        r matches Ok(s) ==> s@ == decode_utf8(bytes@),
        r matches Err(m) ==> m@ == utf8_error_text(bytes@),
{
    match String::from_utf8(bytes) {
        Ok(s) => Ok(s),
        Err(e) => Err(e.to_string()),
    }
}

// ---------------------------------------------------------------------------
// Errors
// ---------------------------------------------------------------------------

/// What went wrong, and with what.
#[derive(Debug)]
enum ErrorKind {
    CurrentDir { err: IoError },
    Var { err: VarError, var: String },
    ReadFile { err: IoError, path: String },
    ReadDir { err: IoError, path: String },
    WriteFile { err: IoError, path: String },
    CopyFile { err: IoError, src: String, dst: String },
    HardLink { err: IoError, src: String, dst: String },
    CreateDir { err: IoError, path: String },
    RemovePath { err: IoError, path: String },
    CmdStatus { cmd: CmdData, status: ExitStatus },
    CmdIo { err: IoError, cmd: CmdData },
    CmdUtf8 { err: String, cmd: CmdData },
    CmdStdin { err: IoError, cmd: CmdData },
}

/// The view of an [`Error`].
pub enum ErrorView {
    CurrentDir { err: IoErrorView },
    Var { err: VarErrorView, var: Seq<char> },
    ReadFile { err: IoErrorView, path: Seq<char> },
    ReadDir { err: IoErrorView, path: Seq<char> },
    WriteFile { err: IoErrorView, path: Seq<char> },
    CopyFile { err: IoErrorView, src: Seq<char>, dst: Seq<char> },
    HardLink { err: IoErrorView, src: Seq<char>, dst: Seq<char> },
    CreateDir { err: IoErrorView, path: Seq<char> },
    RemovePath { err: IoErrorView, path: Seq<char> },
    CmdStatus { cmd: CmdDataView, status: ExitStatus },
    CmdIo { err: IoErrorView, cmd: CmdDataView },
    CmdUtf8 { err: Seq<char>, cmd: CmdDataView },
    CmdStdin { err: IoErrorView, cmd: CmdDataView },
}

/// An error of a shell operation.
#[derive(Debug)]
pub struct Error {
    kind: ErrorKind,
}

impl View for Error {
    type V = ErrorView;

    closed spec fn view(&self) -> ErrorView {
        match self.kind {
            ErrorKind::CurrentDir { err } => ErrorView::CurrentDir { err: err@ },
            ErrorKind::Var { err, var } => ErrorView::Var { err: err@, var: var@ },
            ErrorKind::ReadFile { err, path } => ErrorView::ReadFile { err: err@, path: path@ },
            ErrorKind::ReadDir { err, path } => ErrorView::ReadDir { err: err@, path: path@ },
            ErrorKind::WriteFile { err, path } => ErrorView::WriteFile { err: err@, path: path@ },
            ErrorKind::CopyFile { err, src, dst } => ErrorView::CopyFile {
                err: err@,
                src: src@,
                dst: dst@,
            },
            ErrorKind::HardLink { err, src, dst } => ErrorView::HardLink {
                err: err@,
                src: src@,
                dst: dst@,
            },
            ErrorKind::CreateDir { err, path } => ErrorView::CreateDir { err: err@, path: path@ },
            ErrorKind::RemovePath { err, path } => ErrorView::RemovePath { err: err@, path: path@ },
            ErrorKind::CmdStatus { cmd, status } => ErrorView::CmdStatus { cmd: cmd@, status },
            ErrorKind::CmdIo { err, cmd } => ErrorView::CmdIo { err: err@, cmd: cmd@ },
            ErrorKind::CmdUtf8 { err, cmd } => ErrorView::CmdUtf8 { err: err@, cmd: cmd@ },
            ErrorKind::CmdStdin { err, cmd } => ErrorView::CmdStdin { err: err@, cmd: cmd@ },
        }
    }
}

/// `s` between backquotes.
pub open spec fn quoted(s: Seq<char>) -> Seq<char> {
    seq!['`'] + s + seq!['`']
}

/// How a variable error reads.
pub open spec fn var_error_text(e: VarErrorView) -> Seq<char> {
    match e {
        VarErrorView::NotPresent => "environment variable not found"@,
        VarErrorView::NotUnicode(raw) => "environment variable was not valid unicode: "@ + raw,
    }
}

/// The message of an error.
pub open spec fn error_message(e: ErrorView) -> Seq<char> {
    match e {
        ErrorView::CurrentDir { err } => "failed to get current directory: "@ + err.message,
        ErrorView::Var { err, var } => "failed to get environment variable "@ + quoted(var)
            + ": "@ + var_error_text(err),
        ErrorView::ReadFile { err, path } => "failed to read the file "@ + quoted(path) + ": "@
            + err.message,
        ErrorView::ReadDir { err, path } => "failed to read directory "@ + quoted(path) + ": "@
            + err.message,
        ErrorView::WriteFile { err, path } => "failed to write file "@ + quoted(path) + ": "@
            + err.message,
        ErrorView::CopyFile { err, src, dst } => "failed to copy "@ + quoted(src) + " to "@
            + quoted(dst) + ": "@ + err.message,
        ErrorView::HardLink { err, src, dst } => "failed to hard link "@ + quoted(src) + " to "@
            + quoted(dst) + ": "@ + err.message,
        ErrorView::CreateDir { err, path } => "failed to create directory "@ + quoted(path)
            + ": "@ + err.message,
        ErrorView::RemovePath { err, path } => "failed to remove path "@ + quoted(path) + ": "@
            + err.message,
        ErrorView::CmdStatus { cmd, status } => match status.code {
            Some(code) => "command exited with non-zero code "@ + quoted(display(cmd)) + ": "@
                + signed_decimal(code as int),
            None => match status.signal {
                Some(sig) => "command was terminated by a signal "@ + quoted(display(cmd)) + ": "@
                    + signed_decimal(sig as int),
                None => "command was terminated by a signal "@ + quoted(display(cmd)),
            },
        },
        ErrorView::CmdIo { err, cmd } => if err.kind == IoErrorKind::NotFound {
            "command not found: "@ + quoted(shown_prog(cmd))
        } else {
            "io error when running command "@ + quoted(display(cmd)) + ": "@ + err.message
        },
        ErrorView::CmdUtf8 { err, cmd } => "failed to decode output of command "@ + quoted(
            display(cmd),
        ) + ": "@ + err,
        ErrorView::CmdStdin { err, cmd } => "failed to write to stdin of command "@ + quoted(
            display(cmd),
        ) + ": "@ + err.message,
    }
}

fn push_quoted(s: &mut String, t: &str)
    ensures
        final(s)@ == old(s)@ + quoted(t@),
{
    push_str(s, "`");
    push_str(s, t);
    push_str(s, "`");
    proof {
        reveal_strlit("`");
    }
    assert(s@ =~= old(s)@ + quoted(t@));
}

impl Error {
    pub fn new_current_dir(err: IoError) -> (e: Error)
        ensures
            e@ == (ErrorView::CurrentDir { err: err@ }),
    {
        Error { kind: ErrorKind::CurrentDir { err } }
    }

    pub fn new_var(err: VarError, var: String) -> (e: Error)
        ensures
            e@ == (ErrorView::Var { err: err@, var: var@ }),
    {
        Error { kind: ErrorKind::Var { err, var } }
    }

    pub fn new_read_file(err: IoError, path: String) -> (e: Error)
        ensures
            e@ == (ErrorView::ReadFile { err: err@, path: path@ }),
    {
        Error { kind: ErrorKind::ReadFile { err, path } }
    }

    pub fn new_read_dir(err: IoError, path: String) -> (e: Error)
        ensures
            e@ == (ErrorView::ReadDir { err: err@, path: path@ }),
    {
        Error { kind: ErrorKind::ReadDir { err, path } }
    }

    pub fn new_write_file(err: IoError, path: String) -> (e: Error)
        ensures
            e@ == (ErrorView::WriteFile { err: err@, path: path@ }),
    {
        Error { kind: ErrorKind::WriteFile { err, path } }
    }

    pub fn new_copy_file(err: IoError, src: String, dst: String) -> (e: Error)
        ensures
            e@ == (ErrorView::CopyFile { err: err@, src: src@, dst: dst@ }),
    {
        Error { kind: ErrorKind::CopyFile { err, src, dst } }
    }

    pub fn new_hard_link(err: IoError, src: String, dst: String) -> (e: Error)
        ensures
            e@ == (ErrorView::HardLink { err: err@, src: src@, dst: dst@ }),
    {
        Error { kind: ErrorKind::HardLink { err, src, dst } }
    }

    pub fn new_create_dir(err: IoError, path: String) -> (e: Error)
        ensures
            e@ == (ErrorView::CreateDir { err: err@, path: path@ }),
    {
        Error { kind: ErrorKind::CreateDir { err, path } }
    }

    pub fn new_remove_path(err: IoError, path: String) -> (e: Error)
        ensures
            e@ == (ErrorView::RemovePath { err: err@, path: path@ }),
    {
        Error { kind: ErrorKind::RemovePath { err, path } }
    }

    pub fn new_cmd_status(cmd: &CmdData, status: ExitStatus) -> (e: Error)
        ensures
            e@ == (ErrorView::CmdStatus { cmd: cmd@, status }),
    {
        Error { kind: ErrorKind::CmdStatus { cmd: cmd.duplicate(), status } }
    }

    pub fn new_cmd_io(cmd: &CmdData, err: IoError) -> (e: Error)
        ensures
            e@ == (ErrorView::CmdIo { err: err@, cmd: cmd@ }),
    {
        Error { kind: ErrorKind::CmdIo { err, cmd: cmd.duplicate() } }
    }

    pub fn new_cmd_utf8(cmd: &CmdData, err: String) -> (e: Error)
        ensures
            e@ == (ErrorView::CmdUtf8 { err: err@, cmd: cmd@ }),
    {
        Error { kind: ErrorKind::CmdUtf8 { err, cmd: cmd.duplicate() } }
    }

    pub fn new_cmd_stdin(cmd: &CmdData, err: IoError) -> (e: Error)
        ensures
            e@ == (ErrorView::CmdStdin { err: err@, cmd: cmd@ }),
    {
        Error { kind: ErrorKind::CmdStdin { err, cmd: cmd.duplicate() } }
    }

    /// The message of the error.
    pub fn to_string(&self) -> (r: String)
        ensures
            r@ == error_message(self@),
    {
        let mut s = String::new();
        match &self.kind {
            ErrorKind::CurrentDir { err } => {
                push_str(&mut s, "failed to get current directory: ");
                push_str(&mut s, err.message.as_str());
            },
            ErrorKind::Var { err, var } => {
                push_str(&mut s, "failed to get environment variable ");
                push_quoted(&mut s, var.as_str());
                push_str(&mut s, ": ");
                match err {
                    VarError::NotPresent => push_str(&mut s, "environment variable not found"),
                    VarError::NotUnicode(raw) => {
                        push_str(&mut s, "environment variable was not valid unicode: ");
                        push_str(&mut s, raw.as_str());
                    },
                }
            },
            ErrorKind::ReadFile { err, path } => {
                push_str(&mut s, "failed to read the file ");
                push_quoted(&mut s, path.as_str());
                push_str(&mut s, ": ");
                push_str(&mut s, err.message.as_str());
            },
            ErrorKind::ReadDir { err, path } => {
                push_str(&mut s, "failed to read directory ");
                push_quoted(&mut s, path.as_str());
                push_str(&mut s, ": ");
                push_str(&mut s, err.message.as_str());
            },
            ErrorKind::WriteFile { err, path } => {
                push_str(&mut s, "failed to write file ");
                push_quoted(&mut s, path.as_str());
                push_str(&mut s, ": ");
                push_str(&mut s, err.message.as_str());
            },
            ErrorKind::CopyFile { err, src, dst } => {
                push_str(&mut s, "failed to copy ");
                push_quoted(&mut s, src.as_str());
                push_str(&mut s, " to ");
                push_quoted(&mut s, dst.as_str());
                push_str(&mut s, ": ");
                push_str(&mut s, err.message.as_str());
            },
            ErrorKind::HardLink { err, src, dst } => {
                push_str(&mut s, "failed to hard link ");
                push_quoted(&mut s, src.as_str());
                push_str(&mut s, " to ");
                push_quoted(&mut s, dst.as_str());
                push_str(&mut s, ": ");
                push_str(&mut s, err.message.as_str());
            },
            ErrorKind::CreateDir { err, path } => {
                push_str(&mut s, "failed to create directory ");
                push_quoted(&mut s, path.as_str());
                push_str(&mut s, ": ");
                push_str(&mut s, err.message.as_str());
            },
            ErrorKind::RemovePath { err, path } => {
                push_str(&mut s, "failed to remove path ");
                push_quoted(&mut s, path.as_str());
                push_str(&mut s, ": ");
                push_str(&mut s, err.message.as_str());
            },
            ErrorKind::CmdStatus { cmd, status } => {
                let shown = cmd.to_string();
                match status.code {
                    Some(code) => {
                        push_str(&mut s, "command exited with non-zero code ");
                        push_quoted(&mut s, shown.as_str());
                        push_str(&mut s, ": ");
                        push_signed_decimal(&mut s, code);
                    },
                    None => {
                        push_str(&mut s, "command was terminated by a signal ");
                        push_quoted(&mut s, shown.as_str());
                        match status.signal {
                            Some(sig) => {
                                push_str(&mut s, ": ");
                                push_signed_decimal(&mut s, sig);
                            },
                            None => {},
                        }
                    },
                }
            },
            ErrorKind::CmdIo { err, cmd } => {
                if err.kind == IoErrorKind::NotFound {
                    let prog = cmd.shown_prog();
                    push_str(&mut s, "command not found: ");
                    push_quoted(&mut s, prog.as_str());
                } else {
                    let shown = cmd.to_string();
                    push_str(&mut s, "io error when running command ");
                    push_quoted(&mut s, shown.as_str());
                    push_str(&mut s, ": ");
                    push_str(&mut s, err.message.as_str());
                }
            },
            ErrorKind::CmdUtf8 { err, cmd } => {
                let shown = cmd.to_string();
                push_str(&mut s, "failed to decode output of command ");
                push_quoted(&mut s, shown.as_str());
                push_str(&mut s, ": ");
                push_str(&mut s, err.as_str());
            },
            ErrorKind::CmdStdin { err, cmd } => {
                let shown = cmd.to_string();
                push_str(&mut s, "failed to write to stdin of command ");
                push_quoted(&mut s, shown.as_str());
                push_str(&mut s, ": ");
                push_str(&mut s, err.message.as_str());
            },
        }
        assert(s@ =~= error_message(self@));
        s
    }
}

proof fn lemma_decimal_digits(n: nat)
    ensures
        forall|k: int| 0 <= k < decimal(n).len() ==> is_digit(#[trigger] decimal(n)[k]),
        decimal(n).len() > 0,
    decreases n,
{
    if n >= 10 {
        lemma_decimal_digits(n / 10);
        assert(digit_char(n % 10) as int == 48 + n % 10);
        assert forall|k: int| 0 <= k < decimal(n).len() implies is_digit(#[trigger] decimal(n)[k]) by {
            if k < decimal(n / 10).len() {
                assert(decimal(n)[k] == decimal(n / 10)[k]);
            }
        }
    } else {
        assert(digit_char(n) as int == 48 + n);
    }
}

proof fn lemma_trailing_digits_after(x: Seq<char>, y: Seq<char>)
    requires
        x.len() == 0 || !is_digit(x.last()),
        forall|k: int| 0 <= k < y.len() ==> is_digit(#[trigger] y[k]),
    ensures
        trailing_digits_start(x + y) == x.len(),
    decreases y.len(),
{
    if y.len() == 0 {
        assert(x + y =~= x);
    } else {
        assert((x + y).drop_last() =~= x + y.drop_last());
        assert((x + y).last() == y.last());
        lemma_trailing_digits_after(x, y.drop_last());
    }
}

/// An operating-system error text loses exactly its final ` (os error N)`:
/// the text before it is kept (with its first letter made small); a text
/// that does not end in `)` is only changed in that first letter, which is
/// the only character `lower_first` ever changes.
pub proof fn law_os_error_text(t: Seq<char>, n: nat, raw: Seq<char>)
    ensures
        os_error_text(t + os_code_marker() + decimal(n) + seq![')']) == lower_first(t),
        !(raw.len() > 0 && raw.last() == ')') ==> os_error_text(raw) == lower_first(raw),
        lower_first(raw).len() == raw.len(),
        forall|k: int| 0 < k < raw.len() ==> #[trigger] lower_first(raw)[k] == raw[k],
        raw.len() > 0 && !('A' <= raw[0] <= 'Z') ==> lower_first(raw) == raw,
{
    let m = os_code_marker();
    let s = t + m + decimal(n) + seq![')'];
    let body = s.drop_last();
    assert(body =~= (t + m) + decimal(n));
    lemma_decimal_digits(n);
    assert((t + m).last() == ' ');
    lemma_trailing_digits_after(t + m, decimal(n));
    let i = trailing_digits_start(body);
    assert(i == t.len() + m.len());
    assert(body.subrange(i - m.len(), i) =~= m);
    assert(body.take(i - m.len()) =~= t);
}

/// The two messages the documentation shows: a failing read names the file
/// in backquotes and then the I/O error's text; a non-zero exit names the
/// command as shown, in backquotes, and then the exit code in decimal, which
/// reads back to the code.
pub proof fn law_documented_messages(err: IoErrorView, path: Seq<char>, cmd: CmdDataView, code: i32, signal: Option<i32>)
    ensures
        error_message(ErrorView::ReadFile { err, path }) == "failed to read the file `"@ + path
            + "`: "@ + err.message,
        error_message(
            ErrorView::CmdStatus { cmd, status: ExitStatus { code: Some(code), signal } },
        ) == "command exited with non-zero code `"@ + display(cmd) + "`: "@ + signed_decimal(
            code as int,
        ),
        code >= 0 ==> crate::text::decimal_value(signed_decimal(code as int)) == code,
        code < 0 ==> signed_decimal(code as int)[0] == '-' && crate::text::decimal_value(
            signed_decimal(code as int).drop_first(),
        ) == -code,
{
    reveal_strlit("failed to read the file ");
    reveal_strlit("failed to read the file `");
    reveal_strlit("`");
    reveal_strlit(": ");
    reveal_strlit("`: ");
    reveal_strlit("command exited with non-zero code ");
    reveal_strlit("command exited with non-zero code `");
    assert("failed to read the file "@ + quoted(path) + ": "@ + err.message =~= "failed to read the file `"@
        + path + "`: "@ + err.message);
    assert("command exited with non-zero code "@ + quoted(display(cmd)) + ": "@ + signed_decimal(
        code as int,
    ) =~= "command exited with non-zero code `"@ + display(cmd) + "`: "@ + signed_decimal(
        code as int,
    ));
    if code >= 0 {
        crate::text::lemma_decimal_value(code as nat);
    } else {
        crate::text::lemma_decimal_value((-code) as nat);
        assert((seq!['-'] + decimal((-code) as nat)).drop_first() =~= decimal((-code) as nat));
    }
}

} // verus!
