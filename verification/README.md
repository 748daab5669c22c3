# ddb

A ptrace-based debugger for x86-64 Linux, as a verified library (`src/`) and a
command-line program around it (`app/`).

`src/` holds the debugger's decisions and data, each with a contract that
Verus proves:

- `register`, `value`, `convert`, `le`, `user`: the register file, the types of
  register values and their byte images, and the user area that holds them;
  reading a register after storing into it gives the stored value back.
- `debugger`, `attachment`, `control`, `state`, `signal`: the run-state machine
  of a tracee and the decoding of `waitpid` statuses.
- `process`: the checks on a program to launch and on the report its child
  sends back.
- `error`, `syscall`: fatal and recoverable errors, and the system calls that
  the decisions call for.
- `cli`: the command line and the command loop of the program.

The library makes no system call of its own: it returns `Syscall` values, and
`app/` makes the calls with libc and hands the outcomes back.
