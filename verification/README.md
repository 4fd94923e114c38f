# access_token

Operations on Windows access tokens: open the token of the current process or of the shell, find
out how privileged a token is, and build a token of medium integrity out of one that has too many
privileges.

`src/` is the verified library. It makes no system call itself. Each operation is a procedure that
names the next call, with all its arguments, and is resumed with what came back. Verus proves of
every run, whatever the system answers, that

- it ends, after a known number of calls at most;
- every handle that it acquires is given back, once, but for the token that it ends with;
- nothing is used after it was given back;
- no token is closed or relabelled that the run did not itself acquire, unless to relabel it is what
  was asked;
- it ends with an error exactly when a call failed, and with the error of that call;
- the privilege level that it finds is the one that the replies call for.

`app/` makes the calls, through `winapi`, and wraps tokens so that they close themselves.
`tests/` drives the procedures with hand made replies and against a small model of a desktop.
