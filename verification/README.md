# rustorm_sqlite

The SQLite platform of an object-relational mapper, as a Verus library.

- `src/` holds the verified library:
  - `text`: trimming, first words, prefixes and equality of text;
  - `map`: `TextMap`, a map keyed by text that holds each key once;
  - `pattern`: regular expressions through the `regex` crate;
  - `comments`: reading table and column comments out of `CREATE TABLE`
    statements;
  - `dbtype`: the SQLite type of each Rust type;
  - `writer` and `ddl`: SQL fragments and `CREATE TABLE` statements;
  - `types` and `metadata`: rows, values, errors, table descriptions and
    what is made of the rows that SQLite returns;
  - `sqlite`: the `Sqlite` platform type.
- `app/` runs the statements through `rusqlite` and an `r2d2` pool and hands
  the rows to the library.
- `tests/` exercises the library on concrete statements and rows.
