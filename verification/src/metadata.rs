//! What the platform makes of the rows that SQLite returns: table
//! descriptions, foreign keys, comments and the statements that ask for them.
use vstd::prelude::*;
use vstd::string::*;
use crate::comments::comments_of_statement;
use crate::map::TextMap;
use crate::sqlite::Sqlite;
use crate::text::str_eq;
use crate::types::{has_text, text_of, Column, Dao, DbError, Foreign, Table, Value, ValueView};

verus! {

/// The statement that lists all tables.
pub const ALL_TABLES_SQL: &'static str =
    "SELECT type, name, tbl_name, sql FROM sqlite_master WHERE type = 'table'";

/// The statement that asks for the SQLite version.
pub const VERSION_SQL: &'static str = "SELECT sqlite_version() AS version";

/// The description of the error when the version query returns no row.
pub const NO_VERSION_ERROR: &'static str = "Unable to get database version";

/// The description of the error when an insert returns no row.
pub const NO_INSERT_RESULT_ERROR: &'static str = "No result from insert";

/// `row` holds text under each of `columns`.
pub open spec fn has_texts(row: Map<Seq<char>, ValueView>, columns: Seq<Seq<char>>) -> bool {
    forall|k: int| 0 <= k < columns.len() ==> has_text(row, #[trigger] columns[k])
}

/// The first foreign key among `fs` whose column is `column`.
pub open spec fn foreign_for(fs: Seq<Foreign>, column: Seq<char>) -> Option<Foreign>
    decreases fs.len(),
{
    if fs.len() == 0 {
        None
    } else if fs[0].column@ == column {
        Some(fs[0])
    } else {
        foreign_for(fs.drop_first(), column)
    }
}

/// The comment that `comments` holds for `column`, or none.
pub open spec fn comment_for(comments: Map<Seq<char>, Option<Seq<char>>>, column: Seq<char>) -> Option<
    Seq<char>,
> {
    if comments.contains_key(column) {
        comments[column]
    } else {
        None
    }
}

/// The columns that a row of `PRAGMA table_info` must hold as text.
pub open spec fn table_info_columns() -> Seq<Seq<char>> {
    seq!["name"@, "type"@, "dflt_value"@, "notnull"@, "pk"@]
}

/// The columns that a row of `PRAGMA foreign_key_list` must hold as text.
pub open spec fn foreign_key_columns() -> Seq<Seq<char>> {
    seq!["table"@, "from"@, "to"@]
}

/// `col` is the column that the `PRAGMA table_info` row `row` describes,
/// with its comment from `comments` and its foreign key from `foreigns`.
pub open spec fn column_of_row(
    col: Column,
    row: Map<Seq<char>, ValueView>,
    comments: Map<Seq<char>, Option<Seq<char>>>,
    foreigns: Seq<Foreign>,
) -> bool {
    let name = text_of(row, "name"@);
    &&& col.name@ == name
    &&& col.data_type@ == text_of(row, "type"@)
    &&& col.db_data_type@ == text_of(row, "type"@)
    &&& col.is_primary == (text_of(row, "pk"@) != "0"@)
    &&& !col.is_unique
    &&& col.default.deep_view() == Some(text_of(row, "dflt_value"@))
    &&& col.comment.deep_view() == comment_for(comments, name)
    &&& col.not_null == (text_of(row, "notnull"@) != "0"@)
    &&& !col.is_inherited
    &&& col.foreign == foreign_for(foreigns, name)
}

/// `f` is the foreign key that the `PRAGMA foreign_key_list` row `row`
/// describes.
pub open spec fn foreign_of_row(f: Foreign, row: Map<Seq<char>, ValueView>) -> bool {
    &&& f.schema@ == Seq::<char>::empty()
    &&& f.table@ == text_of(row, "table"@)
    &&& f.column@ == text_of(row, "to"@)
}

/// Returns a copy of `s`.
fn copy_text(s: &str) -> (res: String)
    ensures
        res@ == s@,
{
    s.to_owned()
}

impl<C> Sqlite<C> {
    /// The texts of `params`, which must all be text.
    pub fn from_rust_type_tosql(&self, params: &[Value]) -> (res: Vec<String>)
        requires
            forall|i: int| 0 <= i < params@.len() ==> #[trigger] params@[i] is String,
        ensures
            res@.len() == params@.len(),
            forall|i: int|
                0 <= i < params@.len() ==> #[trigger] res@[i]@ == params@[i]->String_0@,
    {
        let mut res: Vec<String> = Vec::new();
        let n = params.len();
        let mut i: usize = 0;
        while i < n
            invariant
                n == params@.len(),
                i <= n,
                forall|k: int| 0 <= k < params@.len() ==> #[trigger] params@[k] is String,
                res@.len() == i,
                forall|k: int| 0 <= k < i ==> #[trigger] res@[k]@ == params@[k]->String_0@,
            decreases n - i,
        {
            match &params[i] {
                Value::String(x) => res.push(x.clone()),
                _ => {
                    assert(false);
                },
            }
            i = i + 1;
        }
        res
    }

    /// The comment of `column` in `column_comments`, if it has one.
    pub fn get_column_comment(&self, column_comments: &TextMap<Option<String>>, column: &str) -> (res:
        Option<String>)
        ensures
            res.deep_view() == comment_for(column_comments@, column@),
    {
        match column_comments.get(column) {
            Some(comment) => comment.clone(),
            None => None,
        }
    }

    /// The first foreign key in `all_foreign` whose column is `column`.
    pub fn get_column_foreign(&self, all_foreign: &[Foreign], column: &str) -> (res: Option<Foreign>)
        ensures
            res == foreign_for(all_foreign@, column@),
    {
        let n = all_foreign.len();
        let mut i: usize = 0;
        assert(all_foreign@.skip(0) =~= all_foreign@);
        while i < n
            invariant
                n == all_foreign@.len(),
                i <= n,
                foreign_for(all_foreign@, column@) == foreign_for(all_foreign@.skip(i as int), column@),
            decreases n - i,
        {
            let foreign = &all_foreign[i];
            proof {
                assert(all_foreign@.skip(i as int)[0] == *foreign);
                assert(all_foreign@.skip(i as int).drop_first() =~= all_foreign@.skip(i + 1));
            }
            if str_eq(foreign.column.as_str(), column) {
                return Some(foreign.clone());
            }
            i = i + 1;
        }
        None
    }

    /// The column that the `PRAGMA table_info` row `row` describes.
    pub fn column_from_row(
        &self,
        row: &Dao,
        column_comments: &TextMap<Option<String>>,
        foreigns: &[Foreign],
    ) -> (res: Column)
        requires
            has_texts(row@, table_info_columns()),
        ensures
            column_of_row(res, row@, column_comments@, foreigns@),
    {
        proof {
            assert(has_text(row@, table_info_columns()[0]));
            assert(has_text(row@, table_info_columns()[1]));
            assert(has_text(row@, table_info_columns()[2]));
            assert(has_text(row@, table_info_columns()[3]));
            assert(has_text(row@, table_info_columns()[4]));
        }
        let column = row.get("name");
        let data_type = row.get("type");
        let default_value = row.get("dflt_value");
        let not_null = row.get("notnull");
        let pk = row.get("pk");
        let column_comment = self.get_column_comment(column_comments, column.as_str());
        let column_foreign = self.get_column_foreign(foreigns, column.as_str());
        Column {
            name: column,
            data_type: data_type.clone(),
            db_data_type: data_type,
            is_primary: !str_eq(pk.as_str(), "0"),
            is_unique: false,
            default: Some(default_value),
            comment: column_comment,
            not_null: !str_eq(not_null.as_str(), "0"),
            is_inherited: false,
            foreign: column_foreign,
        }
    }

    /// The description of `table` from its `PRAGMA table_info` rows, its
    /// foreign keys, its table comment and its column comments.
    pub fn table_from_metadata(
        &self,
        table: &str,
        rows: &Vec<Dao>,
        foreigns: &[Foreign],
        table_comment: Option<String>,
        column_comments: &TextMap<Option<String>>,
    ) -> (res: Table)
        requires
            forall|i: int| 0 <= i < rows@.len() ==> has_texts(#[trigger] rows@[i]@, table_info_columns()),
        ensures
            res.schema@ == Seq::<char>::empty(),
            res.name@ == table@,
            res.parent_table is None,
            res.sub_table@.len() == 0,
            res.comment == table_comment,
            res.columns@.len() == rows@.len(),
            forall|i: int|
                0 <= i < rows@.len() ==> column_of_row(
                    #[trigger] res.columns@[i],
                    rows@[i]@,
                    column_comments@,
                    foreigns@,
                ),
            !res.is_view,
    {
        let mut columns: Vec<Column> = Vec::new();
        let n = rows.len();
        let mut i: usize = 0;
        while i < n
            invariant
                n == rows@.len(),
                i <= n,
                forall|k: int| 0 <= k < rows@.len() ==> has_texts(#[trigger] rows@[k]@, table_info_columns()),
                columns@.len() == i,
                forall|k: int|
                    0 <= k < i ==> column_of_row(
                        #[trigger] columns@[k],
                        rows@[k]@,
                        column_comments@,
                        foreigns@,
                    ),
            decreases n - i,
        {
            let column = self.column_from_row(&rows[i], column_comments, foreigns);
            columns.push(column);
            i = i + 1;
        }
        Table {
            schema: String::new(),
            name: table.to_owned(),
            parent_table: None,
            sub_table: Vec::new(),
            comment: table_comment,
            columns: columns,
            is_view: false,
        }
    }

    /// SQLite platforms keep no transaction state: never transacted.
    pub fn is_transacted(&self) -> (res: bool)
        ensures
            !res,
    {
        false
    }

    /// Reported as not closed.
    pub fn is_closed(&self) -> (res: bool)
        ensures
            !res,
    {
        false
    }

    /// Reported as not connected.
    pub fn is_connected(&self) -> (res: bool)
        ensures
            !res,
    {
        false
    }

    /// Reported as not valid.
    pub fn is_valid(&self) -> (res: bool)
        ensures
            !res,
    {
        false
    }

    /// SQLite has no table inheritance: no inherited columns.
    pub fn get_inherited_columns(&self, _schema: &str, _table: &str) -> (res: Vec<String>)
        ensures
            res@.len() == 0,
    {
        Vec::new()
    }
}

impl Sqlite {
    /// The statement that describes the columns of `table`.
    pub fn table_info_sql(table: &str) -> (res: String)
        ensures
            res@ == "PRAGMA table_info("@ + table@ + ");"@,
    {
        let mut sql = copy_text("PRAGMA table_info(");
        sql.append(table);
        sql.append(");");
        sql
    }

    /// The statement that lists the foreign keys of `table`.
    pub fn foreign_key_list_sql(table: &str) -> (res: String)
        ensures
            res@ == "PRAGMA foreign_key_list("@ + table@ + ");"@,
    {
        let mut sql = copy_text("PRAGMA foreign_key_list(");
        sql.append(table);
        sql.append(");");
        sql
    }

    /// The statement that asks for the `CREATE TABLE` text of `table`.
    pub fn table_sql_query(table: &str) -> (res: String)
        ensures
            res@ == "SELECT sql FROM sqlite_master WHERE type = 'table' AND tbl_name = '"@
                + table@ + "'"@,
    {
        let mut sql = copy_text(
            "SELECT sql FROM sqlite_master WHERE type = 'table' AND tbl_name = '",
        );
        sql.append(table);
        sql.append("'");
        sql
    }

    /// The row made of `values` under the names `columns`, in order.
    pub fn dao_from_row(columns: &Vec<String>, values: Vec<Value>) -> (res: Dao)
        requires
            columns@.len() == values@.len(),
        ensures
            res@ == dao_spec(columns.deep_view(), values.deep_view()),
    {
        let ghost orig = values@;
        let ghost vs = values.deep_view();
        let ghost cols = columns.deep_view();
        let mut values = values;
        let mut dao = Dao::new();
        let n = columns.len();
        let mut i: usize = 0;
        while i < n
            invariant
                n == columns@.len(),
                n == orig.len(),
                cols == columns.deep_view(),
                vs.len() == n,
                forall|k: int| 0 <= k < n ==> #[trigger] vs[k] == orig[k].deep_view(),
                i <= n,
                values@ == orig.skip(i as int),
                dao@ == dao_spec(cols.take(i as int), vs),
            decreases n - i,
        {
            let v = values.remove(0);
            proof {
                assert(v == orig[i as int]);
                assert(values@ =~= orig.skip(i + 1));
                assert(cols.take(i + 1).drop_last() =~= cols.take(i as int));
                assert(cols.take(i + 1).last() == columns@[i as int]@);
            }
            dao.set_value(columns[i].as_str(), v);
            i = i + 1;
        }
        assert(cols.take(n as int) =~= cols);
        dao
    }

    /// The first row of a query's result, if it has one: later rows are
    /// ignored, and a failed query's error comes back unchanged.
    pub fn first_row(result: Result<Vec<Dao>, DbError>) -> (res: Result<Option<Dao>, DbError>)
        ensures
            match result {
                Ok(daos) => match res {
                    Ok(Some(d)) => daos@.len() >= 1 && d == daos@[0],
                    Ok(None) => daos@.len() == 0,
                    Err(_) => false,
                },
                Err(e) => res == Err::<Option<Dao>, DbError>(e),
            },
    {
        match result {
            Ok(daos) => {
                let mut daos = daos;
                if daos.len() >= 1 {
                    Ok(Some(daos.remove(0)))
                } else {
                    Ok(None)
                }
            },
            Err(e) => Err(e),
        }
    }

    /// The foreign keys that the rows of `PRAGMA foreign_key_list` describe,
    /// in order.
    pub fn foreigns_from_rows(rows: &Vec<Dao>) -> (res: Vec<Foreign>)
        requires
            forall|i: int| 0 <= i < rows@.len() ==> has_texts(#[trigger] rows@[i]@, foreign_key_columns()),
        ensures
            res@.len() == rows@.len(),
            forall|i: int| 0 <= i < rows@.len() ==> foreign_of_row(#[trigger] res@[i], rows@[i]@),
    {
        let mut foreigns: Vec<Foreign> = Vec::new();
        let n = rows.len();
        let mut i: usize = 0;
        while i < n
            invariant
                n == rows@.len(),
                i <= n,
                forall|k: int| 0 <= k < rows@.len() ==> has_texts(#[trigger] rows@[k]@, foreign_key_columns()),
                foreigns@.len() == i,
                forall|k: int| 0 <= k < i ==> foreign_of_row(#[trigger] foreigns@[k], rows@[k]@),
            decreases n - i,
        {
            let r = &rows[i];
            proof {
                assert(has_texts(rows@[i as int]@, foreign_key_columns()));
                assert(has_text(r@, foreign_key_columns()[0]));
                assert(has_text(r@, foreign_key_columns()[1]));
                assert(has_text(r@, foreign_key_columns()[2]));
            }
            let table = r.get("table");
            let _from = r.get("from");
            let to = r.get("to");
            let foreign = Foreign { schema: String::new(), table: table, column: to };
            foreigns.push(foreign);
            i = i + 1;
        }
        foreigns
    }

    /// The table comment read from the single row of the `sqlite_master`
    /// query: none when the statement yields no comments.
    pub fn table_comment_from_rows(rows: &Vec<Dao>) -> (res: Option<String>)
        requires
            rows@.len() == 1,
            has_text(rows@[0]@, "sql"@),
        ensures
            res.deep_view() == match comments_of_statement(text_of(rows@[0]@, "sql"@)) {
                Some((table_comment, _)) => table_comment,
                None => None,
            },
    {
        let create_sql = rows[0].get("sql");
        match Sqlite::extract_comments(create_sql.as_str()) {
            Ok((table_comment, _column_comments)) => table_comment,
            Err(_) => None,
        }
    }

    /// The column comments read from the single row of the `sqlite_master`
    /// query: an empty map when the statement yields no comments.
    pub fn column_comments_from_rows(rows: &Vec<Dao>) -> (res: TextMap<Option<String>>)
        requires
            rows@.len() == 1,
            has_text(rows@[0]@, "sql"@),
        ensures
            res@ == match comments_of_statement(text_of(rows@[0]@, "sql"@)) {
                Some((_, column_comments)) => column_comments,
                None => Map::empty(),
            },
    {
        let create_sql = rows[0].get("sql");
        match Sqlite::extract_comments(create_sql.as_str()) {
            Ok((_table_comment, column_comments)) => column_comments,
            Err(_) => TextMap::new(),
        }
    }

    /// The tables that the rows of the `sqlite_master` listing name: each as
    /// an empty schema, its name and `false` for not being a view.
    pub fn tables_from_rows(rows: &Vec<Dao>) -> (res: Vec<(String, String, bool)>)
        requires
            forall|i: int| 0 <= i < rows@.len() ==> has_text(#[trigger] rows@[i]@, "tbl_name"@),
        ensures
            res@.len() == rows@.len(),
            forall|i: int|
                0 <= i < rows@.len() ==> {
                    &&& (#[trigger] res@[i]).0@ == Seq::<char>::empty()
                    &&& res@[i].1@ == text_of(rows@[i]@, "tbl_name"@)
                    &&& !res@[i].2
                },
    {
        let mut tables: Vec<(String, String, bool)> = Vec::new();
        let n = rows.len();
        let mut i: usize = 0;
        while i < n
            invariant
                n == rows@.len(),
                i <= n,
                forall|k: int| 0 <= k < rows@.len() ==> has_text(#[trigger] rows@[k]@, "tbl_name"@),
                tables@.len() == i,
                forall|k: int|
                    0 <= k < i ==> {
                        &&& (#[trigger] tables@[k]).0@ == Seq::<char>::empty()
                        &&& tables@[k].1@ == text_of(rows@[k]@, "tbl_name"@)
                        &&& !tables@[k].2
                    },
            decreases n - i,
        {
            let schema = String::new();
            let table = rows[i].get("tbl_name");
            let is_view = false;
            tables.push((schema, table, is_view));
            i = i + 1;
        }
        tables
    }

    /// The version named in the row of the version query; an error when the
    /// query returned no row, and the query's own error when it failed.
    pub fn version_from_row(result: Result<Option<Dao>, DbError>) -> (res: Result<String, DbError>)
        requires
            result matches Ok(Some(d)) ==> has_text(d@, "version"@),
        ensures
            match result {
                Ok(Some(d)) => res matches Ok(v) && v@ == text_of(d@, "version"@),
                Ok(None) => res matches Err(e) && e.description@ == NO_VERSION_ERROR@,
                Err(e) => res == Err::<String, DbError>(e),
            },
    {
        match result {
            Ok(Some(dao)) => Ok(dao.get("version")),
            Ok(None) => Err(DbError::new(NO_VERSION_ERROR)),
            Err(e) => Err(e),
        }
    }

    /// The row an insert returned, or an error when it returned none or
    /// failed.
    pub fn insert_result(result: Result<Option<Dao>, DbError>) -> (res: Result<Dao, DbError>)
        ensures
            match result {
                Ok(Some(d)) => res == Ok::<Dao, DbError>(d),
                Ok(None) => res matches Err(e) && e.description@ == NO_INSERT_RESULT_ERROR@,
                Err(e) => res == Err::<Dao, DbError>(e),
            },
    {
        match result {
            Ok(Some(result)) => Ok(result),
            Ok(None) => Err(DbError::new(NO_INSERT_RESULT_ERROR)),
            Err(e) => Err(e),
        }
    }
}

/// The row with `values` under the names `columns`; a later column of the
/// same name wins.
pub open spec fn dao_spec(columns: Seq<Seq<char>>, values: Seq<ValueView>) -> Map<Seq<char>, ValueView>
    decreases columns.len(),
{
    if columns.len() == 0 {
        Map::empty()
    } else {
        dao_spec(columns.drop_last(), values).insert(columns.last(), values[columns.len() - 1])
    }
}

/// In a row built from distinct column names, each name holds the value
/// given with it.
pub proof fn law_row_holds_its_values(columns: Seq<Seq<char>>, values: Seq<ValueView>)
    requires
        columns.len() == values.len(),
        columns.no_duplicates(),
    ensures
        dao_spec(columns, values).dom() == columns.to_set(),
        forall|i: int|
            0 <= i < columns.len() ==> dao_spec(columns, values)[#[trigger] columns[i]] == values[i],
    decreases columns.len(),
{
    if columns.len() > 0 {
        let init = columns.drop_last();
        let vinit = values.drop_last();
        assert(init.no_duplicates()) by {
            assert forall|a: int, b: int| 0 <= a < init.len() && 0 <= b < init.len() && a != b implies init[a]
                != init[b] by {
                assert(init[a] == columns[a] && init[b] == columns[b]);
            }
        }
        law_row_holds_its_values(init, vinit);
        assert(dao_spec(init, values) =~= dao_spec(init, vinit)) by {
            lemma_dao_spec_prefix_values(init, values, vinit);
        }
        assert forall|i: int| 0 <= i < columns.len() implies dao_spec(columns, values)[#[trigger] columns[i]]
            == values[i] by {
            if i < columns.len() - 1 {
                assert(columns[i] == init[i]);
                assert(columns[i] != columns.last());
                assert(vinit[i] == values[i]);
            }
        }
        assert(dao_spec(columns, values).dom() =~= columns.to_set()) by {
            assert forall|c: Seq<char>| columns.to_set().contains(c) implies dao_spec(columns, values).dom().contains(c) by {
                let k = choose|k: int| 0 <= k < columns.len() && columns[k] == c;
                if k < columns.len() - 1 {
                    assert(init[k] == c);
                    assert(init.to_set().contains(c));
                }
            }
            assert forall|c: Seq<char>| dao_spec(columns, values).dom().contains(c) implies columns.to_set().contains(c) by {
                if c != columns.last() {
                    assert(init.to_set().contains(c));
                    let k = choose|k: int| 0 <= k < init.len() && init[k] == c;
                    assert(columns[k] == c);
                } else {
                    assert(columns[columns.len() - 1] == c);
                }
            }
        }
    } else {
        assert(columns.to_set() =~= Set::empty());
    }
}

/// The foreign key found for a column is the first one, in order, whose
/// column is that column; none is found only when no foreign key has it.
pub proof fn law_foreign_for_first(fs: Seq<Foreign>, column: Seq<char>)
    ensures
        foreign_for(fs, column) matches Some(f) ==> exists|i: int|
            0 <= i < fs.len() && fs[i] == f && f.column@ == column && forall|j: int|
                0 <= j < i ==> (#[trigger] fs[j]).column@ != column,
        foreign_for(fs, column) is None ==> forall|i: int|
            0 <= i < fs.len() ==> (#[trigger] fs[i]).column@ != column,
    decreases fs.len(),
{
    if fs.len() > 0 {
        let rest = fs.drop_first();
        law_foreign_for_first(rest, column);
        if fs[0].column@ == column {
            assert(0 <= 0 < fs.len() && fs[0] == fs[0]);
        } else {
            if let Some(f) = foreign_for(fs, column) {
                let i = choose|i: int|
                    0 <= i < rest.len() && rest[i] == f && f.column@ == column && forall|j: int|
                        0 <= j < i ==> (#[trigger] rest[j]).column@ != column;
                assert(fs[i + 1] == f);
                assert forall|j: int| 0 <= j < i + 1 implies (#[trigger] fs[j]).column@ != column by {
                    if j > 0 {
                        assert(fs[j] == rest[j - 1]);
                    }
                }
            } else {
                assert forall|i: int| 0 <= i < fs.len() implies (#[trigger] fs[i]).column@ != column by {
                    if i > 0 {
                        assert(fs[i] == rest[i - 1]);
                    }
                }
            }
        }
    }
}

/// A column is not-null exactly as its row's `notnull` cell says and is a
/// primary key exactly as its `pk` cell says: `"0"` means no, `"1"` yes.
pub proof fn law_column_flags(
    col: Column,
    row: Map<Seq<char>, ValueView>,
    comments: Map<Seq<char>, Option<Seq<char>>>,
    foreigns: Seq<Foreign>,
)
    requires
        column_of_row(col, row, comments, foreigns),
    ensures
        text_of(row, "notnull"@) == "0"@ ==> !col.not_null,
        text_of(row, "notnull"@) == "1"@ ==> col.not_null,
        text_of(row, "pk"@) == "0"@ ==> !col.is_primary,
        text_of(row, "pk"@) == "1"@ ==> col.is_primary,
{
    reveal_strlit("0");
    reveal_strlit("1");
    assert("1"@ != "0"@) by {
        assert("1"@[0] != "0"@[0]);
    }
}

/// The not-null flag depends on the `notnull` cell alone and the primary key
/// flag on the `pk` cell alone: rows that agree on one cell give columns that
/// agree on its flag, whatever their other cells hold.
pub proof fn law_column_flags_independent(
    c1: Column,
    r1: Map<Seq<char>, ValueView>,
    c2: Column,
    r2: Map<Seq<char>, ValueView>,
    comments: Map<Seq<char>, Option<Seq<char>>>,
    foreigns: Seq<Foreign>,
)
    requires
        column_of_row(c1, r1, comments, foreigns),
        column_of_row(c2, r2, comments, foreigns),
    ensures
        text_of(r1, "notnull"@) == text_of(r2, "notnull"@) ==> c1.not_null == c2.not_null,
        text_of(r1, "pk"@) == text_of(r2, "pk"@) ==> c1.is_primary == c2.is_primary,
{
}

/// A foreign key names the referenced table and the referenced column (the
/// row's `to` cell); the row's `from` cell, the referring column, plays no
/// part: rows that agree on `table` and `to` give the same foreign key.
pub proof fn law_foreign_key_references(
    f1: Foreign,
    r1: Map<Seq<char>, ValueView>,
    f2: Foreign,
    r2: Map<Seq<char>, ValueView>,
)
    requires
        foreign_of_row(f1, r1),
        foreign_of_row(f2, r2),
    ensures
        f1.column@ == text_of(r1, "to"@),
        f1.table@ == text_of(r1, "table"@),
        text_of(r1, "table"@) == text_of(r2, "table"@) && text_of(r1, "to"@) == text_of(r2, "to"@)
            ==> f1.table@ == f2.table@ && f1.column@ == f2.column@ && f1.schema@ == f2.schema@,
{
}

/// A row's map depends only on the values at the columns' positions.
proof fn lemma_dao_spec_prefix_values(
    columns: Seq<Seq<char>>,
    values: Seq<ValueView>,
    other: Seq<ValueView>,
)
    requires
        columns.len() <= values.len(),
        columns.len() <= other.len(),
        forall|i: int| 0 <= i < columns.len() ==> values[i] == other[i],
    ensures
        dao_spec(columns, values) == dao_spec(columns, other),
    decreases columns.len(),
{
    if columns.len() > 0 {
        lemma_dao_spec_prefix_values(columns.drop_last(), values, other);
    }
}

} // verus!
