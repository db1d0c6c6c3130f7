# conpty-oxide

Windows pseudoconsole (`ConPTY`) sessions, with the rules proved in Verus.

The library performs no system call. It decides what has to be called next and
takes the outcome back, so every rule is a function of plain values with a
contract:

- `backend`: which `ConPTY` implementation a session runs on, how a bundled
  `conpty.dll` is validated against its `OpenConsole.exe`, and which entry points
  it offers.
- `pseudocon`: who calls `ClosePseudoConsole`, and when. `pseudocon::lifetime`
  proves that it is never called twice, whatever happens and in whatever order,
  and that it has been called once the last owner is gone. The one exception is
  an unclosed legacy console whose close needs a thread that cannot be started:
  that handle is leaked rather than waited for.
- `session`, `child`, `wait`, `collect`: one root child per session, its exit
  status, the watcher of its exit, and the collection of its output.
- `pty`, `pipes`: the two streams of a session and the pipes under them.
- `command`: command lines that the C runtime reads back, environment blocks in
  the order that the operating system expects, and where executables are searched.
- `path`: how a name is joined to a directory.
- `error`, `io_error`, `size`, `status`, `text`, `wide`, `diagnostics`, `win32`:
  the values that the rest speaks of.

`app/` makes the Windows calls: a blocking front end and one for Tokio.
