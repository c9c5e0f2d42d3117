# wrap-command

`wrap-command` wraps the execution of a command with file locking, timeouts,
retries, sleep prevention, network checks, tmux delegation and webhook
notifications.

The decisions of the program are a Verus library under `src/`:

- `duration`: spans of time, duration arguments (`500ms`, `1.5s`, `2h`, ...)
  and their `Debug` text.
- `text`: decimal rendering and the text of forwarded flag values.
- `args`: the options of a run and their defaults.
- `command`: the command that is finally run (tmux delegation with the
  forwarded flags, `sh -c`, the sleep-preventing prefix).
- `lock`: waiting for the lockfile.
- `child`: one attempt of the command, its time limit, the signal and
  `SIGKILL` that end it.
- `signal`: the `--signal` argument, a name (`SIGTERM`) or a number (`15`).
- `notify`: pinging the success or failure URL, the network check settings.
- `session`: a whole run in the documented order: lock, waiting for the
  network, command with retries, notification, final wait, exit.
- `laws`: properties that span several steps.

`app/` holds the program around it: argument parsing, files, processes,
network requests and the terminal. It performs each action the library
decides and reports back what happened.
