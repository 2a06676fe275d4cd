# matchstick

Unit tests for subgraph mappings. A test file written in AssemblyScript is compiled to
WebAssembly, linked against the host functions of the graph runtime, and run.

`src/` is the library. It is written in Verus: the functions carry contracts, and the proof
functions named `law_...` state what holds of several of them together. It decides

- how the AssemblyScript compiler is called,
- which host functions are linked into a module, under which names and in which order,
- the course of setting up an instance: linking, instantiating, making its context, starting it,
- which host method answers a call of the guest, with which arguments,
- what is remembered of failed calls, and when a guest is interrupted.

Three facts about other crates are taken on trust. Each stands in one function, with the claim
above it: how `semver` compares versions (`src/version.rs`), what a `wasmtime` linker does with a
definition (`src/linker.rs`), and how a `wasmtime` instance finds an exported function
(`src/start.rs`).

`app/` holds what touches files, processes and the graph runtime: it reads the directory of
tests, runs the compiler, answers the calls of a guest and runs the guest itself.

`tests/` runs the library, with real modules where the WebAssembly engine is involved.
