# xshell

A verified core for writing shell-like scripts in Rust.

The library (`src/`, verified with Verus) holds the logic: the shell's
working directory and environment stack and the guards that undo a change,
how paths are read against the working directory, sorting of directory
listings (by code point over the whole path, which for the entries of one
directory is the order of their names), what each file-system operation
comes to from its outcome, the retries of removing a directory tree, the
command builder, how a command is shown (quoting, escaping,
`<secret>`), how its process is to be started, what its exit status and
output come to, the temporary-directory search, and every error message.

Paths are held as text and joined, split and named by `std::path`, so by
the rules of the platform. Operating-system strings (arguments,
environment variables, file names) are Unicode text.

- `src/text.rs`: digits, escaping, whitespace, line endings.
- `src/path.rs`: the std path calls, the code-point order of path text, and sorting.
- `src/files.rs`: what file-system operations come to, removal of trees.
- `src/shell.rs`: the shell, its guards, file-operation paths, temporary
  directories.
- `src/cmd.rs`: commands: builder, display, process plans, outcomes.
- `src/error.rs`: errors and the outcomes of outside operations.

`app/` performs the input and output around it: it reads the process
environment, touches the file system and spawns processes, and hands each
outcome back to the library. It also offers guards that restore the
working directory or the environment of a shell shared through a
`RefCell` when they are dropped; the library itself restores through the
explicit `restore` calls.
