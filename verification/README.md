# ralph

The verified core of Ralph, a task-queue tool that drives AI agent loops.

`src/` is a Verus library; every function in it carries a contract that
Verus proves. It holds:

- `parallel_state`: the crash-recovery state of a parallel run (tasks in
  flight, PR records, finished-without-PR blockers, the merge-job queue) and
  its operations; `parallel_laws` proves properties that span several of
  them (upsert idempotence, one job per task after enqueueing, pruning
  partitions the blockers, reconciliation never un-merges).
- `run_loop`: the sequential run loop as a state machine (start, after a
  task run, after a wait), with its limits and failure policy proved.
- `merge_agent`: argument validation, payload and exit code of the
  merge-agent command.
- `watch`: debounce state (paths compared by components, as `PathBuf`s
  are; the window decision as a function of the elapsed time), which
  changed files are scanned, marker comment detection, the task a
  comment becomes, which comments of a batch need a new task, and closing
  the tasks of removed comments.
- `gitignore`: `.gitignore` updates, proved append-only, line-keeping,
  idempotent, and adding each missing entry exactly once.
- `ci`: the CI gate's side of supervision: recognising failure patterns in
  the command's output (TOML parse errors, unknown variants, ruff, format,
  lint, lock contention), the messages that send the agent back to fix a
  red gate, and the retry/escalation state machine; `ci_laws` proves that a
  pass clears the tracking, retries stay within their limit and a pattern
  that keeps coming back escalates.
- `markdown`: the `## ` sections of a context document.
- `phases`: Phase 1's allowed paths and its plan-only check (with the
  revert handler's outcome), Phase 3 completion.
- `profiles`, `init`, `cli`, `queue_lock`, `bookkeeping`,
  `app_launch`, `machine`: the decisions of the corresponding commands.
- `text`, `pathname`, `keyed`: string, path and keyed-list helpers.

`app/` is the command-line front end (argument parsing, files, the file
watcher, signals, running the CI gate's command); `tests/` exercises the library.
