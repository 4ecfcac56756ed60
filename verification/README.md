# squeel

A small builder for SQL `SELECT` statements (SQL Server `FOR JSON PATH`
flavour), verified with Verus.

- `src/` — the verified library: tables and entities (`objects`), queries and
  joins (`dml`, `dml::complex`, `dml::simple`), statements, the text of result
  rows and parameter positions (`lib.rs`), shared text helpers (`text`) and the
  properties proved across operations (`laws`).
- `app/` — running statements over ODBC with an r2d2 pool; it hands the rows
  it reads to the library and takes back text.
- `tests/` — concrete scenarios for the builders.

The `#[derive(Entity)]` procedural macro is not part of this crate: a
procedural-macro crate cannot stand beside this library. `entity_table_text`
writes the query text that such a derived `as_table` returns from the
struct's name and field names.
