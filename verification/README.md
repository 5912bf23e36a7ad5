# apx

A server for Python ASGI applications and the tools to develop them. The
decisions of the program are a verified library; what touches the outside
world is ordinary Rust around it.

- `src/` is the library. Every function states what it does in a contract that
  Verus proves.
  - `supervision`: the supervisor, its workers, how they are stopped, and the
    messages between them.
  - `protocol`, `asgi`, `io`: requests on their way to the application and
    back, WebSocket sessions, and the event loop.
  - `telemetry`: configuration, spans and metrics.
  - `dev`, `ops`, `flux`, `python_logging`: the development server, its
    processes, its proxy, the checks of a project and the collector of logs.
  - `text`, `hex_text`, `headers`, `named`, `paths`, `python_value`,
    `toml_value`, `transport`, `command`: values the rest is built from.
- `tests/` runs the library on concrete values.
- `app/` is the Python extension module: sockets, processes, files, Python
  objects and OpenTelemetry instruments.

Contracts speak of mathematical values: a type has a view or a `data` function
that gives its value, and a function says how its result follows from the
values of its arguments. Calls into other crates stand behind small functions
whose contracts are believed; a comment above each names the call and says what
is believed of it. Properties that span several functions are public proof
functions beside the functions they speak of.
