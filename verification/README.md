# invoicing

An invoicing application: clients, companies, items, payment methods,
terms, invoice templates and invoices, kept in SQLite and edited through a
small web front end.

## Layout

- `src/` is the library, written in Verus. Every function in it carries a
  contract that Verus proves:
  - `date`, `decimal`, `text`, `numbers`: calendar dates, decimal numbers,
    text helpers and integer parsing. Date and decimal arithmetic, parsing
    and printing are done by `chrono` and `rust_decimal`, behind a few small
    trusted wrappers whose results are named in the contracts.
  - `models`, `error`: the data model and the storage errors.
  - `status`, `rows`, `invoice_store`, `legacy`: how records are written to
    and read from the tables. The contracts state that decoding the columns
    an encoder wrote gives the record again. The item list of an invoice is
    written as JSON text by `serde_json`, whose exact text the library states;
    turning that text back into records is left to `serde_json` in `app/`, so
    that step is not proved.
  - `lines`, `patches`: invoice lines as maps keyed by item, and how a
    change to a stored record is applied, with the laws that hold of them.
  - `forms`, `invoice_forms`: what the web forms read and the views they
    show.
- `app/` is the program around the library: the axum routes, the SQLite
  queries (sqlx and rusqlite) and the tera templates.
- `tests/` runs the library on concrete values.
