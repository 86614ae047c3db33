# rootcause-extras

Extras for `rootcause` error reports, as a Verus-verified library.

- `src/` is the verified library. It works on a model of a report
  (`report::Report`: the context's type name and rendered texts, the
  attachments, the child reports) and proves what each operation does:
  depth-first and breadth-first traversal (`iter`, `bfs_iter`), attachment
  lookup (`utils`), formatting-style combinators (`style`, `handlers`,
  `alternate`), terse rendering (`terse`), report-creation hooks
  (`report_creation`), callback-based formatting (`format_helpers`,
  `format_utils`) and RFC 3339 timestamps through chrono (`timestamp`).
- `app/` implements rootcause's handler, hook and formatter traits for the
  handler types, turning rootcause reports into the model and handing every
  decision to the library.
- `tests/` runs the library on concrete reports.
