# genja_core

The core of Genja, a network automation library: the inventory model (hosts,
groups, defaults and their connection options), the rules that resolve a host
through its defaults and its (possibly nested, possibly cyclic) parent groups,
the per-run state of hosts, connections and tasks, the settings with their
environment-backed defaults, and the error types with their messages.

## Layout

- `src/` is the library, written in Verus. Its functions carry contracts over
  a mathematical model (sequences of name/value entries for maps, views of
  strings as character sequences) and are proved against them. One function is
  trusted rather than proved: `text::push_char`, which calls std's
  `String::push` and whose contract states what std documents of it.
  - `inventory/models.rs`: hosts, groups, defaults, connection options, builders.
  - `inventory/merge.rs`: how one layer is merged over another, with its laws.
  - `inventory/runtime.rs`: the inventory, group and host resolution with cycle
    detection and memoization, the caches, and the hosts and groups views.
  - `inventory/transform.rs`: the `Transform` trait users implement.
  - `inventory/connections.rs`: connection keys, lifecycle counters, the
    connection registry and the steps of opening and replacing a connection.
  - `settings/`: settings sections, their builders and environment defaults,
    file format detection and SSH config validation verdicts.
  - `state.rs`: host scope and connection/task attempt state.
  - `errors.rs`: error types, their messages and the rendering of unknown-field
    settings errors (with edit-distance suggestions).
  - `json.rs`, `text.rs`, `types.rs`: JSON values, string helpers and
    name-keyed maps.
- `app/` is ordinary Rust around the library: reading the environment, files,
  serde and JSON Schema support, error display, and the asynchronous
  connection manager, which performs the steps the registry decides.
- The inventory's caches and the run state are held by value and updated
  through `&mut self`; sharing across tasks goes through locks in `app/`.
- `tests/` holds the tests, which run against the compiled library.
