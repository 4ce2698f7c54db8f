# afast client generators

The client-code generators of the afast web framework as a verified
library: from the metadata of a service's handlers (their parameters,
return types and the layouts of the tagged structs and enums they use),
it produces the C#, JavaScript and Rust clients that speak the framework's
binary protocol, and the interactive documentation pages.

- `src/` — the library, verified with Verus. Each generator's output is
  stated as a specification over the metadata; `model` holds the metadata
  types, `cs`, `js` and `rs` the three client generators, `doc` the schema
  and HTML pages, `code` the on-demand generation of one service,
  `output` the choice of services that get files, `routes` the paths of
  WebSocket and server-sent-events routes, `handler_rules` the extractors a
  handler may combine, and `extractors` the splitting of ordinary routes'
  query strings.
- `app/` — the file writers and the serde-based extractors of ordinary
  routes' parameters, which call the library.
- `tests/` — examples run against the compiled library.

The generators produce the clients of one build of the framework: enum
tags are written as one byte, sequence and byte-string lengths as 32-bit
integers, ordinary HTTP, WebSocket and server-sent-events routes get
client methods, and the TypeScript and Kotlin generators are not part of
the build (`generate_code` answers `LangNotEnabled` for them).
