//! SQLite platform support: SQL text generation, type mapping, row handling
//! and the reading of column comments out of `CREATE TABLE` statements.
pub mod comments;
pub mod dbtype;
pub mod ddl;
pub mod map;
pub mod metadata;
pub mod pattern;
pub mod sqlite;
pub mod text;
pub mod types;
pub mod writer;
