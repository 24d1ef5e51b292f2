# singboard

The decision logic of the singboard panel for sing-box on Windows, verified
with Verus: version comparison of releases, SHA-256 checks of downloads and
staged files, the validation of management requests handed to the elevated
helper, command-line and PowerShell quoting, the framing of pipe messages,
the names and layout of protected runtime snapshots, the permission checks of
the protected service directory, the plan the elevated helper follows for
each management operation, the steps of a core update with its rollback and
of migrating an older service with its undo, the placement of core update
files and the order in which a failed replacement puts them back, the
service status, migration and startup synchronisation rules, and the inputs
of network queries.

Layout:

- `src/` — the verified library. Each module states its rules as spec
  functions and proves the executable functions against them; laws that
  relate several functions are public proof functions.
- `tests/` — tests of the library on concrete values.
- `app/` — the Windows program around the library: the Tauri window, the
  service manager, the registry, named pipes and downloads.
