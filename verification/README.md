# bustub

A small SQL kernel in the style of BusTub (CMU 15-445), written in Verus:
the functions of the library carry `requires` / `ensures` contracts that
Verus proves. The few calls into std and rand (case mapping, debug
formatting, `Rc::clone`, shuffling) stand behind small trusted wrappers whose
contracts are taken on trust.

## Layout

- `src/buffer` — the LRU-K replacer (evicts the evictable frame with the
  largest backward k-distance) and the buffer pool manager (pins, guards,
  flushing, deletion) over a `DiskManager`.
- `src/catalog` — columns, schemas with their byte layout, and the catalog of
  tables and indexes.
- `src/binder` — the SQL statement tree the shell hands in, and the binder
  that resolves it against the catalog.
- `src/planner`, `src/optimizer`, `src/execution` — plans, expressions, the
  mock-table scan and projection executors, and the execution engine.
- `src/concurrency` — transactions, the transaction manager and the
  read-timestamp watermark.
- `src/common` — the database instance that runs shell lines, record ids,
  text helpers and the result-writer trait.
- `app/main.rs` — the interactive shell: parsing SQL with `sqlparser`,
  printing tables with `comfy-table`, line editing with `rustyline`.
- `tests/` — tests of the library.
