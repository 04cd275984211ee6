# radroots_cli

The logic of the `radroots` command line tool, verified with Verus: how the runtime
configuration is resolved from flags, environment, env file and config files; the farm and
listing documents and their validation; the hyf and daemon replies and what they mean for a
command; and every view a command reports, with the exact text its human rendering prints.

## Layout

- `src/` — the verified library. Each public function states its result in `ensures` over
  spec functions and views; `src/laws.rs` holds the properties that span several functions
  (flag and environment precedence, the cleanup of human output, the shape of `config show`,
  farm field updates, hyf status health, component key shapes).
- `tests/` — tests on concrete values, run against the compiled library.
- `app/` — the edges the library does not verify: reading the process environment and files,
  running the hyf process, serializing views to JSON and NDJSON with serde, printing, and
  formatting floating-point prices.

## What is trusted

Verus believes the contracts of these items without proof; each names the outside function it
calls:

| item | calls |
| --- | --- |
| `text::push_char` | `String::push` |
| `find::to_lowercase`, `find::lowercase_of` | `str::to_lowercase` |
| `job::format_utc`, `job::utc_format` | chrono `DateTime::from_timestamp` and `format` |
| `paths::join_path`, `paths::path_join` | `Path::join` |
| `paths::parent_path`, `paths::path_parent` | `Path::parent` |
| `local_store::paths_equal`, `local_store::same_path` | `PartialEq` for `Path` |
| `relay::parse_url`, `relay::url_parse_outcome` | url `Url::parse`, `scheme`, `host_str` |

Results that depend on more than a function's arguments (the hyf process, the daemon, the
account store, the local replica, the clock) are taken as arguments by the verified functions,
which state what they return for every value of them.

## Data held differently

- Environment variables and env file values are lists of pairs in which the last setting of a
  key wins.
- A listing price's amount is a floating-point number; views carry it as the bits of its
  `f64` and as its display text, which `app/` computes.
