# agent_hooks

Hooks that observe an agent's run and decide whether its tools may act, verified with Verus.

A configuration lists handlers, each a shell command with the event that it waits for. Before a
tool runs, every handler that is for the tool has to allow it: a command that blocks, fails, takes
too long or gives no answer keeps the tool from running. At every other event commands only
observe: what they answer is not read, and a failure changes nothing.

- `src/` is the library. `config`, `event`, `invocation` and `outcome` hold the data; `manager`
  takes an invocation through its handlers and `shell` takes one command through its stages, step
  by step; `json` and `text` write and read what hooks are told and answer; `laws` states what
  holds of whole invocations, whatever the outside world answers.
- `app/` runs the steps: it starts processes, waits for them, parses their answers and logs.
- `tests/` runs the library on concrete values.
