//! Fragments of SQL text under construction.
use vstd::prelude::*;
use vstd::string::*;
use crate::types::{SqlOption, Value};

verus! {

/// The text that `ln_tab` adds: a line end and one indentation step.
pub open spec fn ln_tab_text() -> Seq<char> {
    "\n"@ + "    "@
}

/// The text that `commasp` adds.
pub open spec fn commasp_text() -> Seq<char> {
    ", "@
}

/// A piece of SQL text with its parameters and the options of the database
/// it is written for.
pub struct SqlFrag {
    pub sql: String,
    pub params: Vec<Value>,
    pub sql_options: Vec<SqlOption>,
}

impl SqlFrag {
    /// An empty fragment for a database with `sql_options`.
    pub fn new(sql_options: Vec<SqlOption>) -> (res: SqlFrag)
        ensures
            res.sql@ == Seq::<char>::empty(),
            res.params@ == Seq::<Value>::empty(),
            res.sql_options == sql_options,
    {
        SqlFrag { sql: String::new(), params: Vec::new(), sql_options }
    }

    /// Appends `s` to the text.
    pub fn append(&mut self, s: &str)
        ensures
            final(self).sql@ == old(self).sql@ + s@,
            final(self).params == old(self).params,
            final(self).sql_options == old(self).sql_options,
    {
        self.sql.append(s);
    }

    /// Appends a line end.
    pub fn ln(&mut self)
        ensures
            final(self).sql@ == old(self).sql@ + "\n"@,
            final(self).params == old(self).params,
            final(self).sql_options == old(self).sql_options,
    {
        self.append("\n");
    }

    /// Appends one indentation step.
    pub fn tab(&mut self)
        ensures
            final(self).sql@ == old(self).sql@ + "    "@,
            final(self).params == old(self).params,
            final(self).sql_options == old(self).sql_options,
    {
        self.append("    ");
    }

    /// Appends a line end and one indentation step.
    pub fn ln_tab(&mut self)
        ensures
            final(self).sql@ == old(self).sql@ + ln_tab_text(),
            final(self).params == old(self).params,
            final(self).sql_options == old(self).sql_options,
    {
        self.ln();
        self.tab();
        assert(self.sql@ =~= old(self).sql@ + ln_tab_text());
    }

    /// Appends a comma and a space.
    pub fn commasp(&mut self)
        ensures
            final(self).sql@ == old(self).sql@ + commasp_text(),
            final(self).params == old(self).params,
            final(self).sql_options == old(self).sql_options,
    {
        self.append(", ");
    }
}

} // verus!
