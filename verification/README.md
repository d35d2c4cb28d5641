# session_launch

Launches the desktop's sessions with the shared `jcode` server: in a terminal of
their own, or through a worker thread that sends one message and follows it to its
end across lost connections and server reloads.

- `src/` is the library. Its decisions are verified with Verus: which launches are
  refused and why, what is sent to the server under which id, what is reported to
  the desktop and written to the log, and where the server's socket lies. The bound
  on the workers is proved over the counts that the shared counter takes on: each
  permit stands for a claim below the limit, dropping it lowers the counter, a worker
  keeps its permit until its job is done, and no sequence of claims and releases lets
  more than twelve jobs run. The workers are state machines (`session`, `control`);
  `session_laws` and `control_laws` state what holds of every run of them.
- `app/` runs them: it starts the threads, reads the environment, and performs the
  machines' actions through a `Backend` that stands for the rest of the desktop.
- `tests/` runs the library on concrete cases.

What is believed without proof is marked `external_body` or
`external_type_specification`: the channels of `std::sync::mpsc` and the text of
their send error, two operations on an atomic counter (`permit`), and the insertion of members into a `serde_json::Map`.
