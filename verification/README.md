# agent_shell

Drives an agent as an interactive shell. An agent type can be driven when it is durable and exposes
`eval(string)`, `answer_prompt(string)` and `abort_prompt()`, each returning an `eval-result` record:

```text
{ stdout: string, stderr: string, exit-code: u8,
  pending-prompt: option<{ question: string, choices: option<list<string>> }> }
```

An agent may append a fifth field, `cwd: string`; the prompt then shows it: `clank [/app] ❯`.

- `src/` is the library, verified with Verus: the check of the surface (`surface`), the decoding of
  results (`eval_result`), requests and replies (`invocation`), what is shown (`render`, `prompt`,
  `question`, `loader`), the discarding of typeahead (`typeahead`) and the session that ties them
  together (`session`), with the laws that hold of every session (`session_laws`).
- `app/` serves the requests of a session in a terminal.
- `tests/` run the library.

The one thing the proofs rest on besides Verus and its library is what `heck` returns as the kebab
case of a name: it is given a name, and it is said to be empty for an empty name and to hold no `$`.
