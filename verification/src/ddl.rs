//! The text of `CREATE TABLE` statements.
use vstd::prelude::*;
use crate::dbtype::{db_type_spec, is_known_rust_type, lookup_db_type};
use crate::types::{Column, Table};
use crate::writer::{commasp_text, ln_tab_text, SqlFrag};

verus! {

/// The definition of column `c`: its name, its SQLite type, and the primary
/// key marker.
pub open spec fn column_def_spec(c: Column) -> Seq<char> {
    c.name@ + " "@ + db_type_spec(c.data_type@)->0 + if c.is_primary {
        " PRIMARY KEY "@
    } else {
        Seq::empty()
    }
}

/// The definitions of `cs`, separated by a comma and a new indented line.
pub open spec fn column_defs_spec(cs: Seq<Column>) -> Seq<char>
    decreases cs.len(),
{
    if cs.len() == 0 {
        Seq::empty()
    } else {
        column_defs_spec(cs.drop_last()) + if cs.len() > 1 {
            commasp_text() + ln_tab_text()
        } else {
            Seq::empty()
        } + column_def_spec(cs.last())
    }
}

/// The foreign key clause of column `c`, each one led by a comma.
pub open spec fn foreign_key_spec(c: Column) -> Seq<char> {
    match c.foreign {
        Some(f) => commasp_text() + ln_tab_text() + "FOREIGN KEY"@ + "("@ + c.name@ + ")"@
            + " REFERENCES "@ + f.table@ + "("@ + f.column@ + ")"@,
        None => Seq::empty(),
    }
}

/// The foreign key clauses of `cs`, in order.
pub open spec fn foreign_keys_spec(cs: Seq<Column>) -> Seq<char>
    decreases cs.len(),
{
    if cs.len() == 0 {
        Seq::empty()
    } else {
        foreign_keys_spec(cs.drop_last()) + foreign_key_spec(cs.last())
    }
}

/// The statement that creates `t`.
pub open spec fn create_table_spec(t: Table) -> Seq<char> {
    "CREATE TABLE "@ + t.name@ + "("@ + ln_tab_text() + column_defs_spec(t.columns@)
        + foreign_keys_spec(t.columns@) + "\n"@ + ")"@
}

/// Every column of `t` has a type with a SQLite equivalent.
pub open spec fn has_known_types(t: Table) -> bool {
    forall|i: int| 0 <= i < t.columns@.len() ==> is_known_rust_type(#[trigger] t.columns@[i].data_type@)
}

/// The foreign key clauses of the columns of `table`.
pub fn build_foreign_key_stmt(table: &Table) -> (res: SqlFrag)
    ensures
        res.sql@ == foreign_keys_spec(table.columns@),
        res.params@.len() == 0,
        res.sql_options@.len() == 0,
{
    let mut w = SqlFrag::new(Vec::new());
    let n = table.columns.len();
    let mut i: usize = 0;
    while i < n
        invariant
            n == table.columns@.len(),
            i <= n,
            w.sql@ == foreign_keys_spec(table.columns@.take(i as int)),
            w.params@.len() == 0,
            w.sql_options@.len() == 0,
        decreases n - i,
    {
        let c = &table.columns[i];
        let ghost before = w.sql@;
        proof {
            assert(table.columns@.take(i + 1).drop_last() =~= table.columns@.take(i as int));
            assert(table.columns@.take(i + 1).last() == *c);
        }
        if let Some(foreign) = &c.foreign {
            w.commasp();
            w.ln_tab();
            w.append("FOREIGN KEY");
            w.append("(");
            w.append(c.name.as_str());
            w.append(")");
            w.append(" REFERENCES ");
            w.append(foreign.table.as_str());
            w.append("(");
            w.append(foreign.column.as_str());
            w.append(")");
            assert(w.sql@ =~= before + foreign_key_spec(*c));
        } else {
            assert(w.sql@ =~= before + foreign_key_spec(*c));
        }
        i = i + 1;
    }
    assert(table.columns@.take(n as int) =~= table.columns@);
    w
}

/// Appends the definitions of the columns of `table` to `w`.
pub fn append_column_defs(w: &mut SqlFrag, table: &Table)
    requires
        has_known_types(*table),
    ensures
        final(w).sql@ == old(w).sql@ + column_defs_spec(table.columns@),
        final(w).params == old(w).params,
        final(w).sql_options == old(w).sql_options,
{
    let ghost start = w.sql@;
    let n = table.columns.len();
    let mut do_comma = false;
    let mut i: usize = 0;
    assert(start + column_defs_spec(table.columns@.take(0)) =~= start);
    while i < n
        invariant
            n == table.columns@.len(),
            i <= n,
            has_known_types(*table),
            do_comma == (i > 0),
            w.sql@ == start + column_defs_spec(table.columns@.take(i as int)),
            w.params == old(w).params,
            w.sql_options == old(w).sql_options,
        decreases n - i,
    {
        let c = &table.columns[i];
        let ghost before = w.sql@;
        proof {
            assert(table.columns@.take(i + 1).drop_last() =~= table.columns@.take(i as int));
            assert(table.columns@.take(i + 1).last() == *c);
            assert(is_known_rust_type(table.columns@[i as int].data_type@));
        }
        if do_comma {
            w.commasp();
            w.ln_tab();
        } else {
            do_comma = true;
        }
        let ghost sep = w.sql@;
        w.append(c.name.as_str());
        w.append(" ");
        let dt = lookup_db_type(c.data_type.as_str()).unwrap();
        w.append(dt.as_str());
        if c.is_primary {
            w.append(" PRIMARY KEY ");
        }
        proof {
            let sep_text = if i + 1 > 1 {
                commasp_text() + ln_tab_text()
            } else {
                Seq::empty()
            };
            assert(sep =~= before + sep_text);
            assert(w.sql@ =~= sep + column_def_spec(*c));
            assert(column_defs_spec(table.columns@.take(i + 1)) =~= column_defs_spec(
                table.columns@.take(i as int),
            ) + sep_text + column_def_spec(*c));
            assert(w.sql@ =~= start + column_defs_spec(table.columns@.take(i + 1)));
        }
        i = i + 1;
    }
    assert(table.columns@.take(n as int) =~= table.columns@);
}

/// The statement that creates a table names the table first and closes the
/// column list on a line of its own.
pub proof fn law_create_table_frame(t: Table)
    ensures
        ("CREATE TABLE "@ + t.name@ + "("@).is_prefix_of(create_table_spec(t)),
        ("\n"@ + ")"@).is_suffix_of(create_table_spec(t)),
{
    let head = "CREATE TABLE "@ + t.name@ + "("@;
    let rest = ln_tab_text() + column_defs_spec(t.columns@) + foreign_keys_spec(t.columns@);
    let tail = "\n"@ + ")"@;
    assert(create_table_spec(t) =~= head + rest + tail);
    assert(head =~= create_table_spec(t).subrange(0, head.len() as int));
    assert(tail =~= create_table_spec(t).subrange(
        create_table_spec(t).len() - tail.len(),
        create_table_spec(t).len() as int,
    ));
}

/// Adding a column adds its definition at the end of the column list,
/// after `, ` and a new indented line unless it is the first column.
pub proof fn law_column_defs_push(cs: Seq<Column>, c: Column)
    ensures
        column_defs_spec(cs.push(c)) == column_defs_spec(cs) + (if cs.len() > 0 {
            ", \n    "@
        } else {
            Seq::<char>::empty()
        }) + column_def_spec(c),
{
    reveal_strlit(", ");
    reveal_strlit("\n");
    reveal_strlit("    ");
    reveal_strlit(", \n    ");
    assert(cs.push(c).drop_last() =~= cs);
    assert(commasp_text() + ln_tab_text() =~= ", \n    "@);
}

/// A column is defined by its name, a space and its SQLite type, with
/// ` PRIMARY KEY ` after it when it is the primary key.
pub proof fn law_column_def_text(c: Column)
    requires
        is_known_rust_type(c.data_type@),
    ensures
        c.is_primary ==> column_def_spec(c) == c.name@ + " "@ + db_type_spec(c.data_type@)->0
            + " PRIMARY KEY "@,
        !c.is_primary ==> column_def_spec(c) == c.name@ + " "@ + db_type_spec(c.data_type@)->0,
{
    assert(!c.is_primary ==> column_def_spec(c) =~= c.name@ + " "@ + db_type_spec(c.data_type@)->0);
}

/// The foreign key text of two runs of columns is the text of the first run
/// followed by that of the second: every column's clause is kept, in column
/// order.
pub proof fn law_foreign_keys_concat(a: Seq<Column>, b: Seq<Column>)
    ensures
        foreign_keys_spec(a + b) == foreign_keys_spec(a) + foreign_keys_spec(b),
    decreases b.len(),
{
    if b.len() == 0 {
        assert(a + b =~= a);
        assert(foreign_keys_spec(a) + foreign_keys_spec(b) =~= foreign_keys_spec(a));
    } else {
        assert((a + b).drop_last() =~= a + b.drop_last());
        assert((a + b).last() == b.last());
        law_foreign_keys_concat(a, b.drop_last());
        assert(foreign_keys_spec(a + b) =~= foreign_keys_spec(a) + foreign_keys_spec(b));
    }
}

/// Adding a column adds exactly its clause at the end of the foreign key text.
pub proof fn law_foreign_keys_push(cs: Seq<Column>, c: Column)
    ensures
        foreign_keys_spec(cs.push(c)) == foreign_keys_spec(cs) + foreign_key_spec(c),
{
    assert(cs.push(c).drop_last() =~= cs);
}

/// A column with a foreign key gets the clause
/// `, \n    FOREIGN KEY(<column>) REFERENCES <table>(<referenced column>)`;
/// a column without one gets nothing.
pub proof fn law_foreign_key_clause(c: Column)
    ensures
        c.foreign matches Some(f) ==> foreign_key_spec(c) == ", \n    FOREIGN KEY("@ + c.name@
            + ") REFERENCES "@ + f.table@ + "("@ + f.column@ + ")"@,
        c.foreign is None ==> foreign_key_spec(c) == Seq::<char>::empty(),
{
    reveal_strlit(", ");
    reveal_strlit("\n");
    reveal_strlit("    ");
    reveal_strlit("FOREIGN KEY");
    reveal_strlit("(");
    reveal_strlit(")");
    reveal_strlit(" REFERENCES ");
    reveal_strlit(", \n    FOREIGN KEY(");
    reveal_strlit(") REFERENCES ");
    if let Some(f) = c.foreign {
        assert(", "@ + ("\n"@ + "    "@) + "FOREIGN KEY"@ + "("@ =~= ", \n    FOREIGN KEY("@);
        assert(")"@ + " REFERENCES "@ =~= ") REFERENCES "@);
        assert(foreign_key_spec(c) =~= ", \n    FOREIGN KEY("@ + c.name@ + ") REFERENCES "@ + f.table@
            + "("@ + f.column@ + ")"@);
    }
}

/// A table without foreign keys gets no foreign key clause.
pub proof fn law_no_foreign_keys_no_clause(cs: Seq<Column>)
    requires
        forall|i: int| 0 <= i < cs.len() ==> (#[trigger] cs[i]).foreign is None,
    ensures
        foreign_keys_spec(cs) == Seq::<char>::empty(),
    decreases cs.len(),
{
    if cs.len() > 0 {
        let init = cs.drop_last();
        assert forall|i: int| 0 <= i < init.len() implies (#[trigger] init[i]).foreign is None by {
            assert(init[i] == cs[i]);
        }
        law_no_foreign_keys_no_clause(init);
        assert(cs[cs.len() - 1] == cs.last());
        assert(foreign_keys_spec(cs) =~= Seq::<char>::empty());
    }
}

} // verus!
