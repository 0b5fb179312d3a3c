//! The values, rows, errors and table descriptions that the platform works on.
use vstd::prelude::*;
use crate::map::TextMap;

verus! {

/// An error reported by the database layer.
#[derive(Debug)]
pub struct DbError {
    pub description: String,
}

impl DbError {
    /// An error with the given description.
    pub fn new(description: &str) -> (res: DbError)
        ensures
            res.description@ == description@,
    {
        DbError { description: description.to_owned() }
    }
}

/// A value read from or written to the database.
pub enum Value {
    Bool(bool),
    I64(i64),
    String(String),
    Null,
}

/// What a `Value` holds, with text taken as characters.
pub enum ValueView {
    Bool(bool),
    I64(i64),
    Text(Seq<char>),
    Null,
}

impl DeepView for Value {
    type V = ValueView;

    open spec fn deep_view(&self) -> ValueView {
        match self {
            Value::Bool(b) => ValueView::Bool(*b),
            Value::I64(n) => ValueView::I64(*n),
            Value::String(s) => ValueView::Text(s@),
            Value::Null => ValueView::Null,
        }
    }
}

impl Value {
    /// The value of a cell that was read as text: the text, or `Null` when the
    /// cell could not be read as text.
    pub fn from_cell(cell: Option<String>) -> (res: Value)
        ensures
            match cell {
                Some(s) => res == Value::String(s),
                None => res == Value::Null,
            },
    {
        match cell {
            Some(s) => Value::String(s),
            None => Value::Null,
        }
    }
}

/// A row of a result: column names mapped to values.
pub struct Dao {
    values: TextMap<Value>,
}

impl View for Dao {
    type V = Map<Seq<char>, ValueView>;

    closed spec fn view(&self) -> Map<Seq<char>, ValueView> {
        self.values@
    }
}

/// Whether `row` holds text under `column`.
pub open spec fn has_text(row: Map<Seq<char>, ValueView>, column: Seq<char>) -> bool {
    row.contains_key(column) && row[column] is Text
}

/// The text that `row` holds under `column`.
pub open spec fn text_of(row: Map<Seq<char>, ValueView>, column: Seq<char>) -> Seq<char> {
    row[column]->Text_0
}

impl Dao {
    /// A row without values.
    pub fn new() -> (res: Dao)
        ensures
            res@ == Map::<Seq<char>, ValueView>::empty(),
    {
        Dao { values: TextMap::new() }
    }

    /// Sets the value of `column`.
    pub fn set_value(&mut self, column: &str, value: Value)
        ensures
            final(self)@ == old(self)@.insert(column@, value.deep_view()),
    {
        self.values.insert(column.to_owned(), value);
    }

    /// The text held under `column`, or `None` when the row holds no text
    /// there.
    pub fn get_opt(&self, column: &str) -> (res: Option<String>)
        ensures
            match res {
                Some(s) => has_text(self@, column@) && s@ == text_of(self@, column@),
                None => !has_text(self@, column@),
            },
    {
        match self.values.get(column) {
            Some(Value::String(s)) => Some(s.clone()),
            _ => None,
        }
    }

    /// The text held under `column`.
    pub fn get(&self, column: &str) -> (res: String)
        requires
            has_text(self@, column@),
        ensures
            res@ == text_of(self@, column@),
    {
        match self.values.get(column) {
            Some(Value::String(s)) => s.clone(),
            _ => String::new(),
        }
    }
}

/// A foreign key: the table and column that a column refers to.
pub struct Foreign {
    pub schema: String,
    pub table: String,
    pub column: String,
}

impl Clone for Foreign {
    fn clone(&self) -> (res: Foreign)
        ensures
            res == *self,
    {
        Foreign {
            schema: self.schema.clone(),
            table: self.table.clone(),
            column: self.column.clone(),
        }
    }
}

/// A column of a table.
pub struct Column {
    pub name: String,
    pub data_type: String,
    pub db_data_type: String,
    pub is_primary: bool,
    pub is_unique: bool,
    pub default: Option<String>,
    pub comment: Option<String>,
    pub not_null: bool,
    pub is_inherited: bool,
    pub foreign: Option<Foreign>,
}

/// A table, with its columns.
pub struct Table {
    pub schema: String,
    pub name: String,
    pub parent_table: Option<String>,
    pub sub_table: Vec<String>,
    pub comment: Option<String>,
    pub columns: Vec<Column>,
    pub is_view: bool,
}

/// A feature of SQL that a database supports.
#[derive(PartialEq, Eq, Structural)]
pub enum SqlOption {
    /// Parameters are written `$1`, `$2`, ...
    UsesNumberedParam,
    /// Common table expressions (`WITH`) are supported.
    SupportsCTE,
}

} // verus!
