//! The shell: a logical working directory and a stack of environment
//! variables, independent of the process's own, plus the guards that undo a
//! change and the temporary-directory search.
use vstd::prelude::*;
use crate::error::{Error, ErrorView, IoError, VarError, VarErrorView};
use crate::path::{file_name, join_path, parent, path_file_name, path_join, path_parent};
use crate::text::{decimal, push_decimal, push_str};

verus! {

// ---------------------------------------------------------------------------
// Model
// ---------------------------------------------------------------------------

/// What a [`Shell`] holds: its working directory, and the variables pushed
/// onto its environment, oldest first.
pub struct ShellView {
    pub cwd: Seq<char>,
    pub env: Seq<(Seq<char>, Seq<char>)>,
}

/// The value of `key` in an environment stack: the most recently pushed
/// binding of it, if any.
pub open spec fn env_lookup(env: Seq<(Seq<char>, Seq<char>)>, key: Seq<char>) -> Option<Seq<char>>
    decreases env.len(),
{
    if env.len() == 0 {
        None
    } else if env.last().0 == key {
        Some(env.last().1)
    } else {
        env_lookup(env.drop_last(), key)
    }
}

impl ShellView {
    /// The shell with its working directory replaced.
    pub open spec fn with_cwd(self, cwd: Seq<char>) -> ShellView {
        ShellView { cwd: cwd, env: self.env }
    }

    /// The shell with one more binding pushed onto its environment.
    pub open spec fn pushed(self, key: Seq<char>, val: Seq<char>) -> ShellView {
        ShellView { cwd: self.cwd, env: self.env.push((key, val)) }
    }

    /// The shell with its most recent binding removed (unchanged when there
    /// is none).
    pub open spec fn popped(self) -> ShellView {
        if self.env.len() == 0 {
            self
        } else {
            ShellView { cwd: self.cwd, env: self.env.drop_last() }
        }
    }

    /// The shell's own value of `key`.
    pub open spec fn lookup(self, key: Seq<char>) -> Option<Seq<char>> {
        env_lookup(self.env, key)
    }
}

/// The views of the pairs of an environment vector.
pub open spec fn env_view(env: Seq<(String, String)>) -> Seq<(Seq<char>, Seq<char>)> {
    env.map_values(|p: (String, String)| (p.0@, p.1@))
}

/// The value of a variable as the process environment holds it: absent,
/// Unicode text, or (as `Err`) a rendering of a value that is not Unicode.
pub open spec fn inherited_view(i: Option<Result<String, String>>) -> Option<Result<Seq<char>, Seq<char>>> {
    match i {
        None => None,
        Some(Ok(v)) => Some(Ok(v@)),
        Some(Err(raw)) => Some(Err(raw@)),
    }
}

/// What [`Shell::var`] returns: the shell's own binding if there is one,
/// otherwise the inherited value, with an error when that is absent or not
/// Unicode.
pub open spec fn var_result(
    s: ShellView,
    key: Seq<char>,
    inherited: Option<Result<Seq<char>, Seq<char>>>,
) -> Result<Seq<char>, ErrorView> {
    match s.lookup(key) {
        Some(v) => Ok(v),
        None => match inherited {
            Some(Ok(v)) => Ok(v),
            Some(Err(raw)) => Err(ErrorView::Var { err: VarErrorView::NotUnicode(raw), var: key }),
            None => Err(ErrorView::Var { err: VarErrorView::NotPresent, var: key }),
        },
    }
}

// ---------------------------------------------------------------------------
// Shell
// ---------------------------------------------------------------------------

/// The main entry point: a working directory and an environment that only
/// affect the paths and commands handed to this shell.
#[derive(Debug)]
pub struct Shell {
    cwd: String,
    env: Vec<(String, String)>,
}

impl View for Shell {
    type V = ShellView;

    closed spec fn view(&self) -> ShellView {
        ShellView { cwd: self.cwd@, env: env_view(self.env@) }
    }
}

/// Guard returned by [`Shell::push_dir`]; it holds the directory to go back
/// to.
#[derive(Debug)]
#[must_use]
pub struct PushDir {
    old_cwd: String,
}

impl View for PushDir {
    type V = Seq<char>;

    closed spec fn view(&self) -> Seq<char> {
        self.old_cwd@
    }
}

/// Guard returned by [`Shell::push_env`]; restoring it removes the most
/// recent binding.
#[derive(Debug)]
#[must_use]
pub struct PushEnv {}

impl Shell {
    /// A shell whose working directory is `cwd`, the process's working
    /// directory as it was read; an error reading it becomes
    /// [`ErrorView::CurrentDir`].
    pub fn new(cwd: Result<String, IoError>) -> (r: Result<Shell, Error>)
        ensures
            match cwd {
                Ok(c) => r matches Ok(s) && s@ == (ShellView { cwd: c@, env: Seq::empty() }),
                Err(e) => r matches Err(err) && err@ == (ErrorView::CurrentDir { err: e@ }),
            },
    {
        match cwd {
            Ok(c) => {
                let s = Shell { cwd: c, env: Vec::new() };
                assert(env_view(s.env@) =~= Seq::empty());
                Ok(s)
            },
            Err(e) => Err(Error::new_current_dir(e)),
        }
    }

    /// The working directory; relative paths are read against it.
    pub fn current_dir(&self) -> (r: String)
        ensures
            r@ == self@.cwd,
    {
        self.cwd.clone()
    }

    /// The shell's environment, oldest binding first.
    pub fn env_bindings(&self) -> (r: Vec<(String, String)>)
        ensures
            env_view(r@) == self@.env,
    {
        let mut r: Vec<(String, String)> = Vec::new();
        let n = self.env.len();
        let mut i: usize = 0;
        while i < n
            invariant
                n == self.env@.len(),
                i <= n,
                r@.len() == i,
                forall|k: int|
                    0 <= k < i ==> #[trigger] r@[k].0@ == self.env@[k].0@ && r@[k].1@
                        == self.env@[k].1@,
            decreases n - i,
        {
            let k = self.env[i].0.clone();
            let v = self.env[i].1.clone();
            r.push((k, v));
            i = i + 1;
        }
        assert(env_view(r@) =~= env_view(self.env@));
        r
    }

    /// `p` read against the working directory.
    pub fn path(&self, p: &str) -> (r: String)
        ensures
            r@ == path_join(self@.cwd, p@),
    {
        join_path(self.cwd.as_str(), p)
    }

    /// Changes the working directory to `path`, read against the current
    /// one. The guard holds the old directory, for [`PushDir::restore`].
    pub fn push_dir(&mut self, path: &str) -> (r: PushDir)
        ensures
            final(self)@ == old(self)@.with_cwd(path_join(old(self)@.cwd, path@)),
            r@ == old(self)@.cwd,
    {
        let mut old_cwd = self.path(path);
        std::mem::swap(&mut self.cwd, &mut old_cwd);
        PushDir { old_cwd }
    }

    /// The shell's own value of `key`.
    fn lookup(&self, key: &str) -> (r: Option<String>)
        ensures
            match r {
                Some(v) => self@.lookup(key@) == Some(v@),
                None => self@.lookup(key@) is None,
            },
    {
        let k = String::from_str(key);
        let mut i = self.env.len();
        assert(env_view(self.env@).take(i as int) =~= env_view(self.env@));
        while i > 0
            invariant
                i <= self.env@.len(),
                k@ == key@,
                env_lookup(env_view(self.env@), key@) == env_lookup(
                    env_view(self.env@).take(i as int),
                    key@,
                ),
            decreases i,
        {
            let ghost e = env_view(self.env@).take(i as int);
            assert(e.drop_last() =~= env_view(self.env@).take(i - 1));
            i = i - 1;
            if self.env[i].0 == k {
                return Some(self.env[i].1.clone());
            }
        }
        None
    }

    /// The value of `key`: the shell's own binding if there is one, else
    /// `inherited`, the process environment's value as it was read
    /// (`Err` carries a rendering of a value that is not Unicode).
    pub fn var(&self, key: &str, inherited: Option<Result<String, String>>) -> (r: Result<String, Error>)
        ensures
            match r {
                Ok(v) => var_result(self@, key@, inherited_view(inherited)) == Ok::<Seq<char>, ErrorView>(v@),
                Err(e) => var_result(self@, key@, inherited_view(inherited)) == Err::<Seq<char>, ErrorView>(e@),
            },
    {
        match self.lookup(key) {
            Some(v) => Ok(v),
            None => match inherited {
                Some(Ok(v)) => Ok(v),
                Some(Err(raw)) => Err(Error::new_var(VarError::NotUnicode(raw), String::from_str(key))),
                None => Err(Error::new_var(VarError::NotPresent, String::from_str(key))),
            },
        }
    }

    /// The value of `key`: the shell's own binding if there is one, else
    /// `inherited`, the process environment's value.
    pub fn var_os(&self, key: &str, inherited: Option<String>) -> (r: Option<String>)
        ensures
            match self@.lookup(key@) {
                Some(v) => r matches Some(x) && x@ == v,
                None => match inherited {
                    Some(i) => r matches Some(x) && x@ == i@,
                    None => r is None,
                },
            },
    {
        match self.lookup(key) {
            Some(v) => Some(v),
            None => inherited,
        }
    }

    /// Binds `key` to `val` on top of the environment. The guard removes the
    /// binding again, through [`PushEnv::restore`].
    pub fn push_env(&mut self, key: &str, val: &str) -> (r: PushEnv)
        ensures
            final(self)@ == old(self)@.pushed(key@, val@),
    {
        let k = String::from_str(key);
        let v = String::from_str(val);
        self.env.push((k, v));
        assert(env_view(self.env@) =~= env_view(old(self).env@).push((key@, val@)));
        PushEnv {}
    }

    /// The two paths of a copy from `src` to `dst`: the source read against
    /// the working directory, and the destination, which is
    /// `dst/<file name of src>` when `dst` is a directory (`dst_is_dir`, as
    /// read from the file system for the resolved `dst`).
    pub fn copy_file_paths(&self, src: &str, dst: &str, dst_is_dir: bool) -> (r: (String, String))
        ensures
            r.0@ == path_join(self@.cwd, src@),
            r.1@ == copy_destination_of(
                path_join(self@.cwd, dst@),
                dst_is_dir,
                path_file_name(path_join(self@.cwd, src@)),
            ),
    {
        let s = self.path(src);
        let d = self.path(dst);
        let name = file_name(s.as_str());
        let d = copy_destination(d, dst_is_dir, name);
        (s, d)
    }

    /// The paths of a write to `path`: the file itself, read against the
    /// working directory, and the directory to create first (its parent,
    /// read against the working directory again), if it has one.
    pub fn write_file_paths(&self, path: &str) -> (r: (String, Option<String>))
        ensures
            r.0@ == path_join(self@.cwd, path@),
            match path_parent(path_join(self@.cwd, path@)) {
                Some(d) => r.1 matches Some(x) && x@ == path_join(self@.cwd, d),
                None => r.1 is None,
            },
    {
        let p = self.path(path);
        match parent(p.as_str()) {
            Some(d) => {
                let dir = self.path(d.as_str());
                (p, Some(dir))
            },
            None => (p, None),
        }
    }
}

/// Where a copy goes: into `dst` itself, or, when `dst` is a directory and
/// the source has a file name, to that name inside `dst`.
pub open spec fn copy_destination_of(
    dst: Seq<char>,
    dst_is_dir: bool,
    src_name: Option<Seq<char>>,
) -> Seq<char> {
    if dst_is_dir {
        match src_name {
            Some(n) => path_join(dst, n),
            None => dst,
        }
    } else {
        dst
    }
}

/// A copy goes into the destination itself unless the destination is a
/// directory and the source has a file name; then it goes to that name
/// inside the destination.
pub proof fn law_copy_destination(dst: Seq<char>, src_name: Option<Seq<char>>)
    ensures
        copy_destination_of(dst, false, src_name) == dst,
        copy_destination_of(dst, true, None) == dst,
        src_name matches Some(n) ==> copy_destination_of(dst, true, src_name) == path_join(dst, n),
{
}

/// Where a copy goes, from the destination, whether it is a directory, and
/// the file name of the source.
pub fn copy_destination(dst: String, dst_is_dir: bool, src_name: Option<String>) -> (r: String)
    ensures
        r@ == copy_destination_of(
            dst@,
            dst_is_dir,
            match src_name {
                Some(n) => Some(n@),
                None => None,
            },
        ),
{
    if dst_is_dir {
        match src_name {
            Some(n) => join_path(dst.as_str(), n.as_str()),
            None => dst,
        }
    } else {
        dst
    }
}

impl PushDir {
    /// Puts the working directory back to what it was when the guard was
    /// made.
    pub fn restore(self, sh: &mut Shell)
        ensures
            final(sh)@ == old(sh)@.with_cwd(self@),
    {
        sh.cwd = self.old_cwd;
    }
}

impl PushEnv {
    /// Removes the most recent binding of the shell's environment.
    pub fn restore(self, sh: &mut Shell)
        ensures
            final(sh)@ == old(sh)@.popped(),
    {
        let ghost e0 = sh.env@;
        let _ = sh.env.pop();
        proof {
            if e0.len() > 0 {
                assert(env_view(sh.env@) =~= env_view(e0).drop_last());
            }
        }
    }
}

// ---------------------------------------------------------------------------
// Laws
// ---------------------------------------------------------------------------

/// Pushing a directory moves the working directory to the path read against
/// it, and restoring the guard gives back the shell as it was.
pub proof fn law_push_dir_restore(s: ShellView, p: Seq<char>)
    ensures
        s.with_cwd(path_join(s.cwd, p)).cwd == path_join(s.cwd, p),
        s.with_cwd(path_join(s.cwd, p)).with_cwd(s.cwd) == s,
{
}

/// After `push_env(key, val)` the shell's value of `key` is `val`, other
/// variables read as before, and restoring the guard gives back the shell as
/// it was.
pub proof fn law_push_env(s: ShellView, key: Seq<char>, val: Seq<char>, other: Seq<char>)
    ensures
        s.pushed(key, val).lookup(key) == Some(val),
        other != key ==> s.pushed(key, val).lookup(other) == s.lookup(other),
        s.pushed(key, val).popped() == s,
{
    assert(s.pushed(key, val).env.drop_last() =~= s.env);
}

/// The shell's value of a key is the value of its most recent binding:
/// some binding `(key, v)` with no later binding of `key`. A key without
/// any binding has no value.
pub proof fn law_lookup_is_latest_binding(env: Seq<(Seq<char>, Seq<char>)>, key: Seq<char>)
    ensures
        env_lookup(env, key) is None <==> forall|i: int| 0 <= i < env.len() ==> #[trigger] env[i].0 != key,
        env_lookup(env, key) matches Some(v) ==> exists|i: int|
            0 <= i < env.len() && #[trigger] env[i] == (key, v) && forall|j: int|
                i < j < env.len() ==> #[trigger] env[j].0 != key,
    decreases env.len(),
{
    if env.len() > 0 {
        let rest = env.drop_last();
        law_lookup_is_latest_binding(rest, key);
        if env.last().0 == key {
            let i = env.len() - 1;
            assert(env[i] == (key, env.last().1));
        } else {
            assert forall|i: int| 0 <= i < rest.len() implies rest[i] == env[i] by {}
            if env_lookup(rest, key) is None {
                assert forall|i: int| 0 <= i < env.len() implies #[trigger] env[i].0 != key by {
                    if i < rest.len() {
                        assert(rest[i] == env[i]);
                    }
                }
            } else {
                let v = env_lookup(rest, key)->0;
                let i = choose|i: int|
                    0 <= i < rest.len() && #[trigger] rest[i] == (key, v) && forall|j: int|
                        i < j < rest.len() ==> #[trigger] rest[j].0 != key;
                assert(env[i] == (key, v));
                assert forall|j: int| i < j < env.len() implies #[trigger] env[j].0 != key by {
                    if j < rest.len() {
                        assert(rest[j] == env[j]);
                    }
                }
            }
        }
    }
}

/// Whenever the shell has its own binding of a key, reading the variable
/// gives that binding's value, whatever the process environment holds;
/// without one, it gives the process environment's value, which must be
/// present and Unicode.
pub proof fn law_var_prefers_shell(
    s: ShellView,
    key: Seq<char>,
    inherited: Option<Result<Seq<char>, Seq<char>>>,
)
    ensures
        s.lookup(key) matches Some(v) ==> var_result(s, key, inherited) == Ok::<
            Seq<char>,
            ErrorView,
        >(v),
        s.lookup(key) is None ==> match inherited {
            Some(Ok(w)) => var_result(s, key, inherited) == Ok::<Seq<char>, ErrorView>(w),
            Some(Err(raw)) => var_result(s, key, inherited) == Err::<Seq<char>, ErrorView>(
                ErrorView::Var { err: VarErrorView::NotUnicode(raw), var: key },
            ),
            None => var_result(s, key, inherited) == Err::<Seq<char>, ErrorView>(
                ErrorView::Var { err: VarErrorView::NotPresent, var: key },
            ),
        },
{
}

/// After `push_env(key, val)`, `var(key)` gives `val`, whatever the process
/// environment holds.
pub proof fn law_var_after_push_env(
    s: ShellView,
    key: Seq<char>,
    val: Seq<char>,
    inherited: Option<Result<Seq<char>, Seq<char>>>,
)
    ensures
        var_result(s.pushed(key, val), key, inherited) == Ok::<Seq<char>, ErrorView>(val),
{
}

// ---------------------------------------------------------------------------
// Temporary directories
// ---------------------------------------------------------------------------

/// A temporary directory, by its path.
#[derive(Debug)]
#[must_use]
pub struct TempDir {
    path: String,
}

impl View for TempDir {
    type V = Seq<char>;

    closed spec fn view(&self) -> Seq<char> {
        self.path@
    }
}

impl TempDir {
    /// The path of the directory.
    pub fn path(&self) -> (r: &str)
        ensures
            r@ == self@,
    {
        self.path.as_str()
    }
}

/// The most failed attempts to create a temporary directory that are
/// retried; the next failure is reported.
pub const TEMP_DIR_RETRIES: u32 = 1024;

/// The search for a fresh temporary directory: how many attempts have failed.
pub struct TempDirSearch {
    n_try: u32,
}

/// What to do after an attempt to create a temporary directory.
#[derive(Debug)]
pub enum TempDirStep {
    /// The directory was created.
    Created(TempDir),
    /// The attempts are used up; this is the last failure.
    Failed(Error),
    /// Try again with the next name.
    Retry,
}

/// The name of the `cnt`-th candidate temporary directory.
pub open spec fn temp_dir_name(cnt: nat) -> Seq<char> {
    "xshell-tmp-dir-"@ + decimal(cnt)
}

/// The `cnt`-th candidate temporary directory below `base`.
pub open spec fn temp_dir_candidate(base: Seq<char>, cnt: nat) -> Seq<char> {
    path_join(base, temp_dir_name(cnt))
}

/// Candidates for different counter values have different names, so the
/// directories made from distinct counter values are named apart.
pub proof fn law_temp_dir_names_differ(a: nat, b: nat)
    ensures
        a != b ==> temp_dir_name(a) != temp_dir_name(b),
{
    if a != b {
        crate::text::lemma_decimal_injective(a, b);
        let prefix = "xshell-tmp-dir-"@;
        let p = prefix + decimal(a);
        let q = prefix + decimal(b);
        if p == q {
            assert(decimal(a) =~= p.subrange(prefix.len() as int, p.len() as int));
            assert(decimal(b) =~= q.subrange(prefix.len() as int, q.len() as int));
        }
    }
}

impl TempDirSearch {
    #[verifier::type_invariant]
    spec fn inv(self) -> bool {
        self.n_try <= TEMP_DIR_RETRIES
    }

    /// How many attempts have failed so far.
    pub closed spec fn failures(self) -> nat {
        self.n_try as nat
    }

    /// A search with no failed attempt yet.
    pub fn new() -> (r: TempDirSearch)
        ensures
            r.failures() == 0,
    {
        TempDirSearch { n_try: 0 }
    }

    /// The path of the `cnt`-th candidate below `base`.
    pub fn candidate(base: &str, cnt: usize) -> (r: String)
        ensures
            r@ == temp_dir_candidate(base@, cnt as nat),
    {
        let mut name = String::new();
        push_str(&mut name, "xshell-tmp-dir-");
        push_decimal(&mut name, cnt as u64);
        assert(name@ =~= temp_dir_name(cnt as nat));
        join_path(base, name.as_str())
    }

    /// Takes the outcome of creating the directory at `path`: done on
    /// success; on failure, retry while fewer than `TEMP_DIR_RETRIES`
    /// attempts have failed before, and report the error otherwise.
    pub fn step(&mut self, path: String, created: Result<(), IoError>) -> (r: TempDirStep)
        ensures
            final(self).failures() <= TEMP_DIR_RETRIES,
            match created {
                Ok(()) => r matches TempDirStep::Created(d) && d@ == path@ && final(self).failures()
                    == old(self).failures(),
                Err(e) => if old(self).failures() == TEMP_DIR_RETRIES {
                    r matches TempDirStep::Failed(err) && err@ == (ErrorView::CreateDir {
                        err: e@,
                        path: path@,
                    }) && final(self).failures() == old(self).failures()
                } else {
                    r is Retry && final(self).failures() == old(self).failures() + 1
                },
            },
    {
        proof {
            use_type_invariant(&*self);
        }
        match created {
            Ok(()) => TempDirStep::Created(TempDir { path }),
            Err(e) => {
                if self.n_try == TEMP_DIR_RETRIES {
                    TempDirStep::Failed(Error::new_create_dir(e, path))
                } else {
                    self.n_try = self.n_try + 1;
                    TempDirStep::Retry
                }
            },
        }
    }
}

} // verus!
