# adjutant

The decision logic of a team of coding agents (scout, planner, builder,
triage, transformer, transpiler, babysitter, git janitor, evaluator, log
analyzer and the context pruner), written in Verus and proved against its
contracts.

## Layout

- `src/` — the verified library. Each agent's module holds its prompts, the
  requests it sends, how it reads the model's replies and tool calls, the
  notes it records, and its step functions from state and reply to next state
  and action. Shared modules hold the JSON value type (`json`), text and path
  helpers (`text`, `paths`), the model and tool interfaces (`llm`), the tool
  loop (`orchestrator`) and the build rounds (`build_runs`).
- `tests/` — tests of the library on concrete values.
- `app/` — the edges the library does not hold: reading and writing files,
  parsing JSON text with serde, running build commands, and driving the
  agent loops.

## The model and the build runner

`LlmClient` and `BuildCommandRunner` are traits the caller implements. Each
carries a relation (`answers`, `ran`) between what it was handed and what it
returned, so the contracts of the functions that call them state which
request or command was sent, and what follows for every possible reply.
