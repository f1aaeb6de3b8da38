# package_manager

Which package manager a JavaScript repository uses, and what follows from it: the globs of its
workspace, its lockfile, the separator in front of arguments, and the errors that tell what is
wrong.

`src/` is the verified library. It reads no file and runs no binary: what was found on disk comes in
as plain values.

- `manager` holds the managers and what is fixed for each; `npm`, `pnpm`, `yarn` and `bun` hold what
  is particular to one.
- `grammar` and `version` state what the `packageManager` field may hold; `detection` decides on the
  manager.
- `package_json` and `workspaces` turn the configured globs into inclusions and exclusions.
- `lockfile` and `settings` decide how lockfiles are parsed, packages are linked and patches are
  pruned.
- `error`, `source`, `paths` and `text` hold what the others share.

`app/` reads the files and runs the detectors. `tests/` holds the tests.
