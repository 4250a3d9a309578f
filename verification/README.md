# kanto

Thread runtimes for a program whose parts must not disturb each other: each
tokio runtime gets its own worker threads, cores and priority, and is found
under the names that the configuration maps to it.

- `src/` is the library, verified with Verus.
  - `policy` – ranges of cores
  - `names` – maps from names to values
  - `thread_name` – names of numbered threads
  - `worker` – how a thread takes on its priority and its cores
  - `supported_runtimes` – configurations, pools of native threads, join handles
  - `manager` – building runtimes and finding them
  - `machine`, `tokio_builder` – the calls into `affinity`, `thread-priority`
    and `tokio`, with the contracts that the proofs rest on
- `app/` reads and writes the configuration with serde, starts and joins native
  threads, and waits for tasks.
- `tests/` runs the library on the real machine.
