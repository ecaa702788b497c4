# codex_feedback

A second local process can tell a running session something about its task: that a command was
blocked, that a file is locked, that a retry should not happen. This library holds the decisions
behind that, with contracts that Verus proves.

- `src/inbox.rs`: where the feedback inbox and the session registry lie below the home directory,
  which inbox files concern a thread, and what the inbox watcher passes on. `src/inbox_laws.rs`
  states what holds of them.
- `src/step.rs`, `src/approval.rs`, `src/attempt.rs`, `src/orchestrator.rs`: the run of one tool
  call as a dialogue. Each step is a question for the surrounding program; its `answer` gives the
  next step. A run goes through approval, a first attempt in a sandbox, and at most one more
  attempt without one. `src/run_laws.rs` states what holds of every run: among other things, that
  no attempt is made without permission and that external feedback stops the retry.
- `src/sandboxing.rs`: the values that a run is decided on.
- `src/std_paths.rs`: the three functions of the standard library whose behaviour is taken as given,
  and what the file name of a path is on Unix and on Windows.
- `app/`: the asynchronous side, which watches the inbox and drives a run.
