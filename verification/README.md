# ollama_lite

The verified core of Ollama Lite, a desktop runner that serves the Ollama REST
API on port 11434 in front of a llama.cpp `llama-server` engine.

- `src/` is the library, checked by Verus: model-name resolution, request
  routing and parsing, the JSON and NDJSON the API writes, chunked transfer
  framing, request conversion for the engine, model matching, pull progress,
  engine launch settings and status, release asset selection, and the paths
  and login-item texts the application writes, and what tray and window
  events do. Contracts are stated over
  character sequences and spec functions; the laws that relate several
  functions are public proof functions (`lemma_*`).
- `tests/` runs the library on concrete values.
- `app/` is the unverified runtime around it: sockets, files, processes,
  SQLite, downloads, and the serde forms of the library's types.
