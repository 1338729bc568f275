# illya

A small OCI runtime that runs WebAssembly containers.

- `src/` is the verified library: the layout of the runtime directory
  (`utils`, `commands::Context`, `container`), the status of a container,
  the labels of a container's state (`models::state`), the values each
  command computes (`commands::*`), the listing table and the log line.
- `app/` is the `illya` program around it: argument parsing, the
  environment, files, pipes, sockets, JSON and the WebAssembly engine.
- `tests/` runs the library on concrete values.
