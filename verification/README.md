# cockpit_storage

Where the cockpit desktop application keeps its data, and how that data moves
to a new place. The library is written in Verus and its behaviour is proved
against the contracts stated in `src/`.

- `src/storage_paths.rs`: the legacy locations, the custom locations recorded
  in the bootstrap configuration (honoured on Windows only), and the layout of
  a migration target.
- `src/storage_manager.rs`: the storage state and overview records, the
  checks of a migration request and its plan and outcome.
- `src/instances.rs`: the managed instances and the step-by-step move of their
  directories, each to a directory of its own.
- `src/ordering.rs`: the stable sort used for the overview's lists.
- `src/text.rs`, `src/path.rs`, `src/platform.rs`: text utilities, the
  `std::path` operations and what the system reports.
- `src/laws.rs`: properties of the library as a whole.
- `app/`: file-system work, the bootstrap file (JSON), platform stores and the
  user-interface commands, built on the library.
- `tests/`: tests of the library on concrete values.
