//! The SQLite platform.
use vstd::prelude::*;
use crate::comments::{
    column_lines, column_list_of, comments_cover_columns, comments_from_scan, comments_of_statement,
    scan_lines, scan_of_column_list, CREATE_TABLE_PATTERN, LINE_COMMA_PATTERN, PARSE_ERROR,
    UNMATCHED_COMMENTS_ERROR,
};
use crate::map::TextMap;
use crate::pattern::{regex_compiles, Pattern};
use crate::types::{DbError, SqlOption, Table};
use crate::dbtype::{db_type_spec, is_known_rust_type, lookup_db_type};
use crate::ddl::{append_column_defs, build_foreign_key_stmt, create_table_spec, has_known_types};
use crate::writer::SqlFrag;

verus! {

/// A SQLite database, reached through an optional pooled connection of type
/// `C` (in use, `r2d2::PooledConnection<r2d2_sqlite::SqliteConnectionManager>`).
pub struct Sqlite<C = ()> {
    pool: Option<C>,
}

impl<C> Sqlite<C> {
    /// The connection this platform holds, if any.
    pub closed spec fn connection(&self) -> Option<C> {
        self.pool
    }

    /// A platform without a connection.
    pub fn new() -> (res: Self)
        ensures
            res.connection() is None,
    {
        Sqlite { pool: None }
    }

    /// A platform that works through `pool`.
    pub fn with_pooled_connection(pool: C) -> (res: Self)
        ensures
            res.connection() == Some(pool),
    {
        Sqlite { pool: Some(pool) }
    }

    /// Whether this platform holds a connection.
    pub fn has_connection(&self) -> (res: bool)
        ensures
            res == self.connection() is Some,
    {
        self.pool.is_some()
    }

    /// The connection of this platform.
    pub fn get_connection(&self) -> (res: &C)
        requires
            self.connection() is Some,
        ensures
            Some(*res) == self.connection(),
    {
        self.pool.as_ref().unwrap()
    }

    /// The SQL features that SQLite supports: numbered parameters and common
    /// table expressions.
    pub fn sql_options(&self) -> (res: Vec<SqlOption>)
        ensures
            res@ == seq![SqlOption::UsesNumberedParam, SqlOption::SupportsCTE],
    {
        vec![SqlOption::UsesNumberedParam, SqlOption::SupportsCTE]
    }

    /// The SQLite type name of the Rust type named `rust_type`.
    pub fn rust_type_to_dbtype(&self, rust_type: &str) -> (res: String)
        requires
            is_known_rust_type(rust_type@),
        ensures
            res@ == db_type_spec(rust_type@)->0,
    {
        lookup_db_type(rust_type).unwrap()
    }

    /// The statement that creates `table`: its columns with their SQLite
    /// types and primary key markers, then a foreign key clause for each
    /// column that refers to another table.
    pub fn build_create_table(&self, table: &Table) -> (res: SqlFrag)
        requires
            has_known_types(*table),
        ensures
            res.sql@ == create_table_spec(*table),
            res.params@.len() == 0,
            res.sql_options@ == seq![SqlOption::UsesNumberedParam, SqlOption::SupportsCTE],
    {
        let mut w = SqlFrag::new(self.sql_options());
        w.append("CREATE TABLE ");
        w.append(table.name.as_str());
        w.append("(");
        w.ln_tab();
        append_column_defs(&mut w, table);
        let fsql = build_foreign_key_stmt(table);
        w.append(fsql.sql.as_str());
        w.ln();
        w.append(")");
        assert(w.sql@ =~= create_table_spec(*table));
        w
    }
}

impl Sqlite {
    /// Reads the table comment and the comment of each column out of a
    /// `CREATE TABLE` statement. The statement's column list is split at
    /// commas and line ends; `--` pieces are comments, `FOREIGN` and `CHECK`
    /// pieces are skipped, and every other piece names a column by its first
    /// word. A comment before the first column is the table's; a comment after
    /// a column is that column's.
    pub fn extract_comments(create_sql: &str) -> (res: Result<
        (Option<String>, TextMap<Option<String>>),
        DbError,
    >)
        ensures
            res is Ok <==> comments_of_statement(create_sql@) is Some,
            res matches Ok((table_comment, column_comments)) ==> {
                let (t, m) = comments_of_statement(create_sql@)->0;
                &&& table_comment.deep_view() == t
                &&& column_comments@ == m
            },
            regex_compiles(CREATE_TABLE_PATTERN@) && column_list_of(create_sql@) is None ==> (
            res matches Err(e) && e.description@ == PARSE_ERROR@),
            regex_compiles(CREATE_TABLE_PATTERN@) && regex_compiles(LINE_COMMA_PATTERN@)
                && column_list_of(create_sql@) is Some && !comments_cover_columns(
                scan_of_column_list(column_list_of(create_sql@)->0).0,
                scan_of_column_list(column_list_of(create_sql@)->0).1,
            ) ==> (res matches Err(e) && e.description@ == UNMATCHED_COMMENTS_ERROR@),
    {
        let re = match Pattern::compile(CREATE_TABLE_PATTERN) {
            Ok(p) => p,
            Err(message) => return Err(DbError::new(message.as_str())),
        };
        if !re.is_match(create_sql) {
            return Err(DbError::new(PARSE_ERROR));
        }
        let groups = re.captures(create_sql).unwrap();
        if groups.len() <= 2 {
            return Err(DbError::new(PARSE_ERROR));
        }
        let all_columns = match &groups[2] {
            Some(text) => text,
            None => return Err(DbError::new(PARSE_ERROR)),
        };
        assert(all_columns@ == column_list_of(create_sql@)->0);
        let line_comma_re = match Pattern::compile(LINE_COMMA_PATTERN) {
            Ok(p) => p,
            Err(message) => return Err(DbError::new(message.as_str())),
        };
        let splinters = line_comma_re.split(all_columns.as_str());
        let lines = column_lines(&splinters);
        let scan = scan_lines(&lines);
        if scan.comments.len() == 0 || scan.columns.len() < scan.comments.len() {
            Ok(comments_from_scan(&scan))
        } else {
            Err(DbError::new(UNMATCHED_COMMENTS_ERROR))
        }
    }
}

} // verus!
