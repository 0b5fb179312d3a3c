use rustorm_sqlite::comments::{PARSE_ERROR, UNMATCHED_COMMENTS_ERROR};
use rustorm_sqlite::dbtype::lookup_db_type;
use rustorm_sqlite::map::TextMap;
use rustorm_sqlite::metadata::{NO_INSERT_RESULT_ERROR, NO_VERSION_ERROR};
use rustorm_sqlite::sqlite::Sqlite;
use rustorm_sqlite::text::{first_word, starts_with, str_eq, trim};
use rustorm_sqlite::types::{Column, Dao, DbError, Foreign, SqlOption, Table, Value};

const PRODUCT_AVAILABILITY: &str = r"
CREATE TABLE product_availability (
   --Each product has its own product availability which determines when can it be available for purchase
    product_id uuid NOT NULL , --this is the id of the product
    available boolean,
    always_available boolean,
    stocks numeric DEFAULT 1,
    available_from timestamp with time zone,
    available_until timestamp with time zone,
    available_day json,
    open_time time with time zone,
    close_time time with time zone, --closing time
    FOREIGN KEY(product_id) REFERENCES product(product_id)
)
    ";

#[test]
fn test_comment_extract() {
    let create_sql = PRODUCT_AVAILABILITY;
    let _ = Sqlite::extract_comments(create_sql);
}

#[test]
fn comments_of_product_availability() {
    let (table_comment, columns) = match Sqlite::extract_comments(PRODUCT_AVAILABILITY) {
        Ok(found) => found,
        Err(e) => panic!("refused: {}", e.description),
    };
    assert_eq!(
        table_comment.as_deref(),
        Some("--Each product has its own product availability which determines when can it be available for purchase")
    );
    assert_eq!(
        columns.get("product_id").cloned(),
        Some(Some("--this is the id of the product".to_string()))
    );
    assert_eq!(columns.get("close_time").cloned(), Some(Some("--closing time".to_string())));
    for name in [
        "available",
        "always_available",
        "stocks",
        "available_from",
        "available_until",
        "available_day",
        "open_time",
    ] {
        assert_eq!(columns.get(name).cloned(), Some(None), "column {}", name);
    }
    assert_eq!(columns.get("FOREIGN").cloned(), None);
    assert_eq!(columns.get("uuid").cloned(), None);
}

#[test]
fn comments_without_any_comment() {
    let (table_comment, columns) =
        Sqlite::extract_comments("CREATE TABLE t (a int, b text)").ok().unwrap();
    assert_eq!(table_comment, None);
    assert_eq!(columns.get("a").cloned(), Some(None));
    assert_eq!(columns.get("b").cloned(), Some(None));
    assert!(!columns.contains_key("int"));
}

#[test]
fn comments_of_not_a_create_statement() {
    match Sqlite::extract_comments("SELECT 1") {
        Err(e) => assert_eq!(e.description, PARSE_ERROR),
        Ok(_) => panic!("a SELECT has no column list"),
    }
}

#[test]
fn comments_that_cannot_be_placed() {
    match Sqlite::extract_comments("CREATE TABLE t (--the table\n a int,\n b int)") {
        Err(e) => assert_eq!(e.description, UNMATCHED_COMMENTS_ERROR),
        Ok(_) => panic!("column b has no comment slot"),
    }
}

#[test]
fn comments_after_check_constraint() {
    let sql = "CREATE TABLE t (\n --table note\n a int, --about a\n CHECK (a > 0),\n b int, --about b\n)";
    let (table_comment, columns) = Sqlite::extract_comments(sql).ok().unwrap();
    assert_eq!(table_comment.as_deref(), Some("--table note"));
    assert_eq!(columns.get("a").cloned(), Some(Some("--about a".to_string())));
    assert_eq!(columns.get("b").cloned(), Some(Some("--about b".to_string())));
    assert!(!columns.contains_key("CHECK"));
}

#[test]
fn text_helpers() {
    assert_eq!(trim("  \t hello world \n"), "hello world");
    assert_eq!(trim(" \n "), "");
    assert_eq!(trim("\u{3000}\u{A0}x y\u{85}\u{2029}"), "x y");
    assert_eq!(trim("\u{200B}x"), "\u{200B}x");
    assert_eq!(trim(&trim("  x  ")), trim("  x  "));
    assert_eq!(first_word("   product_id uuid NOT NULL"), "product_id");
    assert_eq!(first_word("   "), "");
    assert!(starts_with("--comment", "--"));
    assert!(!starts_with("-x", "--"));
    assert!(starts_with("FOREIGN KEY(a)", "FOREIGN"));
    assert!(str_eq("Vec<u8>", "Vec<u8>"));
    assert!(!str_eq("Vec<u8>", "Vec<u16>"));
}

#[test]
fn db_types() {
    let db: Sqlite = Sqlite::new();
    assert_eq!(db.rust_type_to_dbtype("bool"), "boolean");
    assert_eq!(db.rust_type_to_dbtype("i32"), "integer");
    assert_eq!(db.rust_type_to_dbtype("u32"), "integer");
    assert_eq!(db.rust_type_to_dbtype("f64"), "real");
    assert_eq!(db.rust_type_to_dbtype("String"), "text");
    assert_eq!(db.rust_type_to_dbtype("Vec<u8>"), "blob");
    assert_eq!(db.rust_type_to_dbtype("Uuid"), "text");
    assert_eq!(db.rust_type_to_dbtype("DateTime<UTC>"), "numeric");
    assert_eq!(db.rust_type_to_dbtype("HashMap<String, Option<String>>"), "text");
    assert_eq!(lookup_db_type("u64"), None);
    assert_eq!(lookup_db_type("NaiveTime"), Some("numeric".to_string()));
}

fn column(name: &str, data_type: &str, is_primary: bool, foreign: Option<Foreign>) -> Column {
    Column {
        name: name.to_string(),
        data_type: data_type.to_string(),
        db_data_type: data_type.to_string(),
        is_primary,
        is_unique: false,
        default: None,
        comment: None,
        not_null: false,
        is_inherited: false,
        foreign,
    }
}

fn table(name: &str, columns: Vec<Column>) -> Table {
    Table {
        schema: String::new(),
        name: name.to_string(),
        parent_table: None,
        sub_table: vec![],
        comment: None,
        columns,
        is_view: false,
    }
}

#[test]
fn create_table_statement() {
    let db: Sqlite = Sqlite::new();
    let groups = Foreign { schema: String::new(), table: "groups".to_string(), column: "id".to_string() };
    let users = table(
        "users",
        vec![
            column("id", "i32", true, None),
            column("name", "String", false, None),
            column("group_id", "i64", false, Some(groups)),
        ],
    );
    let frag = db.build_create_table(&users);
    assert_eq!(
        frag.sql,
        "CREATE TABLE users(\n    id integer PRIMARY KEY , \n    name text, \n    group_id integer, \n    FOREIGN KEY(group_id) REFERENCES groups(id)\n)"
    );
    assert!(frag.params.is_empty());
    assert!(frag.sql_options == vec![SqlOption::UsesNumberedParam, SqlOption::SupportsCTE]);
}

#[test]
fn create_table_statement_single_column() {
    let db: Sqlite = Sqlite::new();
    let frag = db.build_create_table(&table("t", vec![column("flag", "bool", false, None)]));
    assert_eq!(frag.sql, "CREATE TABLE t(\n    flag boolean\n)");
}

#[test]
fn text_map_insert_and_get() {
    let mut m: TextMap<Option<String>> = TextMap::new();
    assert!(m.get("a").is_none());
    m.insert("a".to_string(), None);
    m.insert("b".to_string(), Some("x".to_string()));
    m.insert("a".to_string(), Some("y".to_string()));
    assert_eq!(m.get("a").cloned(), Some(Some("y".to_string())));
    assert_eq!(m.get("b").cloned(), Some(Some("x".to_string())));
    assert!(!m.contains_key("c"));
}

fn row(pairs: &[(&str, &str)]) -> Dao {
    let mut dao = Dao::new();
    for (k, v) in pairs {
        dao.set_value(k, Value::String(v.to_string()));
    }
    dao
}

#[test]
fn dao_values() {
    let columns = vec!["a".to_string(), "b".to_string()];
    let dao = Sqlite::dao_from_row(&columns, vec![Value::String("1".to_string()), Value::from_cell(None)]);
    assert_eq!(dao.get("a"), "1");
    let mut d = Dao::new();
    d.set_value("x", Value::String("old".to_string()));
    d.set_value("x", Value::String("new".to_string()));
    assert_eq!(d.get("x"), "new");
    assert!(matches!(Value::from_cell(Some("t".to_string())), Value::String(ref s) if s == "t"));
}

#[test]
fn statements_for_metadata() {
    assert_eq!(Sqlite::table_info_sql("users"), "PRAGMA table_info(users);");
    assert_eq!(Sqlite::foreign_key_list_sql("users"), "PRAGMA foreign_key_list(users);");
    assert_eq!(
        Sqlite::table_sql_query("users"),
        "SELECT sql FROM sqlite_master WHERE type = 'table' AND tbl_name = 'users'"
    );
}

#[test]
fn table_from_rows() {
    let db: Sqlite = Sqlite::new();
    let rows = vec![
        row(&[("name", "id"), ("type", "i32"), ("dflt_value", ""), ("notnull", "1"), ("pk", "1")]),
        row(&[("name", "owner"), ("type", "i64"), ("dflt_value", "0"), ("notnull", "0"), ("pk", "0")]),
    ];
    let foreign_rows = vec![row(&[("table", "people"), ("from", "owner"), ("to", "owner")])];
    let foreigns = Sqlite::foreigns_from_rows(&foreign_rows);
    assert_eq!(foreigns.len(), 1);
    assert_eq!(foreigns[0].table, "people");
    assert_eq!(foreigns[0].column, "owner");
    let sql_rows = vec![row(&[("sql", "CREATE TABLE pets (--all pets\n id int, --key\n owner int, --who\n)")])];
    let table_comment = Sqlite::table_comment_from_rows(&sql_rows);
    assert_eq!(table_comment.as_deref(), Some("--all pets"));
    let comments = Sqlite::column_comments_from_rows(&sql_rows);
    let t = db.table_from_metadata("pets", &rows, &foreigns, table_comment, &comments);
    assert_eq!(t.name, "pets");
    assert_eq!(t.comment.as_deref(), Some("--all pets"));
    assert_eq!(t.columns.len(), 2);
    assert!(t.columns[0].is_primary && t.columns[0].not_null);
    assert!(!t.columns[1].is_primary && !t.columns[1].not_null);
    assert_eq!(t.columns[0].comment.as_deref(), Some("--key"));
    assert_eq!(t.columns[1].comment.as_deref(), Some("--who"));
    assert_eq!(t.columns[1].default.as_deref(), Some("0"));
    assert!(t.columns[0].foreign.is_none());
    assert_eq!(t.columns[1].foreign.as_ref().map(|f| f.table.as_str()), Some("people"));
    assert!(!t.is_view);
}

#[test]
fn comments_of_unparsable_statement_are_empty() {
    let rows = vec![row(&[("sql", "not sql at all")])];
    assert_eq!(Sqlite::table_comment_from_rows(&rows), None);
    assert!(!Sqlite::column_comments_from_rows(&rows).contains_key("not"));
}

#[test]
fn tables_and_versions() {
    let rows = vec![row(&[("tbl_name", "a")]), row(&[("tbl_name", "b")])];
    let tables = Sqlite::tables_from_rows(&rows);
    assert_eq!(tables, vec![(String::new(), "a".to_string(), false), (String::new(), "b".to_string(), false)]);
    assert_eq!(Sqlite::version_from_row(Ok(Some(row(&[("version", "3.45.0")])))).ok(), Some("3.45.0".to_string()));
    match Sqlite::version_from_row(Err(DbError::new("query failed"))) {
        Err(e) => assert_eq!(e.description, "query failed"),
        Ok(_) => panic!("a failed query gives no version"),
    }
    match Sqlite::version_from_row(Ok(None)) {
        Err(e) => assert_eq!(e.description, NO_VERSION_ERROR),
        Ok(_) => panic!("no row, no version"),
    }
    match Sqlite::insert_result(Ok(None)) {
        Err(e) => assert_eq!(e.description, NO_INSERT_RESULT_ERROR),
        Ok(_) => panic!("no row from insert"),
    }
    match Sqlite::insert_result(Err(DbError::new("boom"))) {
        Err(e) => assert_eq!(e.description, "boom"),
        Ok(_) => panic!("error passes through"),
    }
    let first = Sqlite::first_row(Ok(vec![row(&[("k", "1")]), row(&[("k", "2")])])).unwrap().unwrap();
    assert_eq!(first.get("k"), "1");
    assert!(Sqlite::first_row(Ok(vec![])).unwrap().is_none());
    match Sqlite::first_row(Err(DbError::new("no such table"))) {
        Err(e) => assert_eq!(e.description, "no such table"),
        Ok(_) => panic!("the query's error comes back"),
    }
}

#[test]
fn params_and_flags() {
    let db: Sqlite = Sqlite::new();
    let params = db.from_rust_type_tosql(&[Value::String("a".to_string()), Value::String("b".to_string())]);
    assert_eq!(params, vec!["a".to_string(), "b".to_string()]);
    assert!(!db.is_transacted() && !db.is_closed() && !db.is_connected() && !db.is_valid());
    assert!(db.get_inherited_columns("", "t").is_empty());
    let with_conn: Sqlite<u8> = Sqlite::with_pooled_connection(7);
    assert_eq!(*with_conn.get_connection(), 7);
}

#[test]
fn column_lookups() {
    let db: Sqlite = Sqlite::new();
    let fs = vec![
        Foreign { schema: String::new(), table: "t1".to_string(), column: "c".to_string() },
        Foreign { schema: String::new(), table: "t2".to_string(), column: "c".to_string() },
    ];
    assert_eq!(db.get_column_foreign(&fs, "c").map(|f| f.table), Some("t1".to_string()));
    assert!(db.get_column_foreign(&fs, "d").is_none());
    let mut comments: TextMap<Option<String>> = TextMap::new();
    comments.insert("c".to_string(), Some("--note".to_string()));
    assert_eq!(db.get_column_comment(&comments, "c"), Some("--note".to_string()));
    assert_eq!(db.get_column_comment(&comments, "d"), None);
}
